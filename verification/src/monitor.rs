//! The monitor: for each favourite, the next few departures that head in
//! its direction.

use vstd::prelude::*;
use crate::favorites::Favorite;
use crate::models::Departure;
use crate::text::{
    ascii_lowercase, contains_seq, contains_str, is_ascii_text, lemma_contains_anywhere,
    lemma_contains_splits, occurs_at, to_lowercase, unicode_lowercase,
};
use crate::urls::opt_text;

verus! {

/// How many departures the monitor fetches for each favourite.
pub const MONITOR_FETCH_LIMIT: usize = 30;

/// How many departures the monitor shows for each favourite.
pub const MONITOR_SHOWN: usize = 3;

/// The lowercase form of a text: the Unicode lowercase mapping, which for
/// ASCII text is its ASCII lowercase.
pub open spec fn lowered(s: Seq<char>) -> Seq<char> {
    if is_ascii_text(s) {
        ascii_lowercase(s)
    } else {
        unicode_lowercase(s)
    }
}

/// A departure towards `destination` passes the direction filter: there is
/// none, or its lowercase form occurs in the lowercase destination.
pub open spec fn heads_towards(destination: Seq<char>, filter: Option<Seq<char>>) -> bool {
    match filter {
        None => true,
        Some(f) => contains_seq(lowered(destination), lowered(f)),
    }
}

/// The departures that pass the filter, in their order.
pub open spec fn matching(deps: Seq<Departure>, filter: Option<Seq<char>>) -> Seq<Departure>
    decreases deps.len(),
{
    if deps.len() == 0 {
        Seq::empty()
    } else {
        let rest = matching(deps.drop_last(), filter);
        if heads_towards(deps.last().destination@, filter) {
            rest.push(deps.last())
        } else {
            rest
        }
    }
}

/// The first `max` departures that pass the filter (all of them where
/// there are fewer).
pub open spec fn shown(deps: Seq<Departure>, filter: Option<Seq<char>>, max: nat) -> Seq<
    Departure,
> {
    let m = matching(deps, filter);
    if m.len() <= max {
        m
    } else {
        m.take(max as int)
    }
}

/// Whether a departure towards `destination` passes the direction filter.
pub fn heads_towards_filter(destination: &str, filter: &Option<String>) -> (r: bool)
    ensures
        r == heads_towards(destination@, opt_text(*filter)),
{
    match filter {
        Some(f) => {
            let dest = to_lowercase(destination);
            let want = to_lowercase(f.as_str());
            contains_str(dest.as_str(), want.as_str())
        },
        None => true,
    }
}

/// The first `max` departures, in order, that pass the direction filter.
pub fn select_departures(deps: Vec<Departure>, filter: &Option<String>, max: usize) -> (r: Vec<
    Departure,
>)
    ensures
        r@ == shown(deps@, opt_text(*filter), max as nat),
{
    let ghost orig = deps@;
    let ghost fil = opt_text(*filter);
    let mut rest = deps;
    let mut kept: Vec<Departure> = Vec::new();
    let mut i: usize = 0;
    let n: usize = rest.len();
    while rest.len() > 0
        invariant
            i + rest@.len() == n,
            n == orig.len(),
            rest@ == orig.skip(i as int),
            fil == opt_text(*filter),
            kept@ == shown(orig.take(i as int), fil, max as nat),
        decreases rest@.len(),
    {
        let d = rest.remove(0);
        let pass = heads_towards_filter(d.destination.as_str(), filter);
        proof {
            assert(orig.take(i + 1).drop_last() =~= orig.take(i as int));
            assert(orig.take(i + 1).last() == d);
            assert(rest@ =~= orig.skip(i + 1));
            let m = matching(orig.take(i as int), fil);
            if m.len() > max {
                assert(m.push(d).take(max as int) =~= m.take(max as int));
            }
        }
        if pass && kept.len() < max {
            kept.push(d);
        }
        i = i + 1;
    }
    proof {
        assert(orig.take(n as int) =~= orig);
    }
    kept
}

/// What the monitor shows for a favourite, given the departures fetched at
/// its station: the alias, and the first departures heading in its
/// direction.
pub fn monitor_data(fav: &Favorite, deps: Vec<Departure>) -> (r: (String, Vec<Departure>))
    ensures
        r.0@ == fav.alias@,
        r.1@ == shown(deps@, opt_text(fav.direction_filter), MONITOR_SHOWN as nat),
{
    let alias = fav.alias.clone();
    let selected = select_departures(deps, &fav.direction_filter, MONITOR_SHOWN);
    (alias, selected)
}

/// The monitor shows at most `max` departures, each of which heads in the
/// filter's direction; and where it shows fewer, no other departure does.
pub proof fn lemma_shown_departures(deps: Seq<Departure>, filter: Option<Seq<char>>, max: nat)
    ensures
        shown(deps, filter, max).len() <= max,
        forall|i: int|
            0 <= i < shown(deps, filter, max).len() ==> heads_towards(
                #[trigger] shown(deps, filter, max)[i].destination@,
                filter,
            ),
        shown(deps, filter, max).len() < max ==> forall|d: Departure|
            #[trigger] deps.contains(d) && heads_towards(d.destination@, filter) ==> shown(
                deps,
                filter,
                max,
            ).contains(d),
{
    lemma_matching(deps, filter);
    let m = matching(deps, filter);
    assert forall|i: int| 0 <= i < shown(deps, filter, max).len() implies heads_towards(
        #[trigger] shown(deps, filter, max)[i].destination@,
        filter,
    ) by {
        assert(shown(deps, filter, max)[i] == m[i]);
    }
}

/// Every departure that passes the filter is among the matching ones, and
/// only such departures are.
pub proof fn lemma_matching(deps: Seq<Departure>, filter: Option<Seq<char>>)
    ensures
        matching(deps, filter).len() <= deps.len(),
        forall|i: int|
            0 <= i < matching(deps, filter).len() ==> heads_towards(
                #[trigger] matching(deps, filter)[i].destination@,
                filter,
            ),
        forall|d: Departure|
            #[trigger] deps.contains(d) && heads_towards(d.destination@, filter) ==> matching(
                deps,
                filter,
            ).contains(d),
    decreases deps.len(),
{
    if deps.len() > 0 {
        let init = deps.drop_last();
        let rest = matching(init, filter);
        lemma_matching(init, filter);
        assert forall|i: int|
            0 <= i < matching(deps, filter).len() implies heads_towards(
            #[trigger] matching(deps, filter)[i].destination@,
            filter,
        ) by {
            if i < rest.len() {
                assert(matching(deps, filter)[i] == rest[i]);
            }
        }
        assert forall|d: Departure| #[trigger]
            deps.contains(d) && heads_towards(d.destination@, filter) implies matching(
            deps,
            filter,
        ).contains(d) by {
            let j = choose|j: int| 0 <= j < deps.len() && deps[j] == d;
            if j < init.len() {
                assert(init[j] == d);
                assert(init.contains(d));
                assert(rest.contains(d));
                let k = choose|k: int| 0 <= k < rest.len() && rest[k] == d;
                assert(matching(deps, filter)[k] == d);
            } else {
                assert(matching(deps, filter)[rest.len() as int] == d);
            }
        }
    }
}


/// Two filters that pass the same destinations select the same departures.
pub proof fn lemma_matching_same_filters(
    deps: Seq<Departure>,
    f1: Option<Seq<char>>,
    f2: Option<Seq<char>>,
)
    requires
        forall|d: Seq<char>| heads_towards(d, f1) == heads_towards(d, f2),
    ensures
        matching(deps, f1) == matching(deps, f2),
    decreases deps.len(),
{
    if deps.len() > 0 {
        lemma_matching_same_filters(deps.drop_last(), f1, f2);
        assert(heads_towards(deps.last().destination@, f1) == heads_towards(
            deps.last().destination@,
            f2,
        ));
    }
}

/// An empty direction filter passes every destination, so the monitor shows
/// the same departures as without a filter.
pub proof fn lemma_empty_filter_matches_all(deps: Seq<Departure>, max: nat)
    ensures
        forall|d: Seq<char>| #[trigger] heads_towards(d, Some(Seq::<char>::empty())),
        shown(deps, Some(Seq::<char>::empty()), max) == shown(deps, None, max),
{
    let e = Seq::<char>::empty();
    assert(is_ascii_text(e));
    assert(ascii_lowercase(e) =~= e);
    assert forall|d: Seq<char>| #[trigger] heads_towards(d, Some(e)) by {
        assert(lowered(d).subrange(0, 0) =~= e);
        assert(occurs_at(lowered(d), e, 0));
    }
    lemma_matching_same_filters(deps, Some(e), None);
}

/// The direction filter ignores ASCII case: two ASCII filters that agree
/// once lowercased pass the same destinations, so the monitor shows the
/// same departures for either.
pub proof fn lemma_filter_ignores_ascii_case(
    deps: Seq<Departure>,
    f: Seq<char>,
    g: Seq<char>,
    max: nat,
)
    requires
        is_ascii_text(f),
        is_ascii_text(g),
        ascii_lowercase(f) == ascii_lowercase(g),
    ensures
        forall|d: Seq<char>| #[trigger] heads_towards(d, Some(f)) == heads_towards(d, Some(g)),
        shown(deps, Some(f), max) == shown(deps, Some(g), max),
{
    assert(lowered(f) == lowered(g));
    lemma_matching_same_filters(deps, Some(f), Some(g));
}


/// Without a filter every departure passes. With a filter, a departure
/// passes whenever its lowercase destination holds the lowercase filter at
/// any position, whatever comes before and after it.
pub proof fn lemma_filter_passes_anywhere(
    destination: Seq<char>,
    filter: Seq<char>,
    x: Seq<char>,
    y: Seq<char>,
)
    requires
        lowered(destination) == x + lowered(filter) + y,
    ensures
        heads_towards(destination, Some(filter)),
        heads_towards(destination, None),
{
    lemma_contains_anywhere(x, lowered(filter), y);
}

/// A departure passes a filter only where its lowercase destination holds
/// the lowercase filter somewhere.
pub proof fn lemma_filter_pass_is_occurrence(destination: Seq<char>, filter: Seq<char>)
    requires
        heads_towards(destination, Some(filter)),
    ensures
        exists|x: Seq<char>, y: Seq<char>| lowered(destination) == x + lowered(filter) + y,
{
    lemma_contains_splits(lowered(destination), lowered(filter));
}

/// Filtering two runs of departures one after the other gives the
/// filtered first run followed by the filtered second run: the filter
/// keeps the order and looks at each departure alone.
pub proof fn lemma_matching_append(a: Seq<Departure>, b: Seq<Departure>, filter: Option<Seq<char>>)
    ensures
        matching(a + b, filter) == matching(a, filter) + matching(b, filter),
    decreases b.len(),
{
    if b.len() == 0 {
        assert(a + b =~= a);
        assert(matching(a, filter) + matching(b, filter) =~= matching(a, filter));
    } else {
        lemma_matching_append(a, b.drop_last(), filter);
        assert((a + b).drop_last() =~= a + b.drop_last());
        assert((a + b).last() == b.last());
        let ma = matching(a, filter);
        let mb = matching(b.drop_last(), filter);
        assert((ma + mb).push(b.last()) =~= ma + mb.push(b.last()));
    }
}

/// The monitor takes the first departures that pass: what it shows for the
/// start of a list it still shows, first, when more departures follow; and
/// once it has `max` of them, later departures change nothing.
pub proof fn lemma_shown_takes_first(
    a: Seq<Departure>,
    b: Seq<Departure>,
    filter: Option<Seq<char>>,
    max: nat,
)
    ensures
        shown(a, filter, max).len() <= shown(a + b, filter, max).len(),
        shown(a + b, filter, max).take(shown(a, filter, max).len() as int) == shown(a, filter, max),
        shown(a, filter, max).len() == max ==> shown(a + b, filter, max) == shown(a, filter, max),
{
    lemma_matching_append(a, b, filter);
    let ma = matching(a, filter);
    let mab = matching(a + b, filter);
    assert(mab.take(ma.len() as int) =~= ma);
    if ma.len() <= max {
        if mab.len() <= max {
            assert(mab.take(ma.len() as int) =~= ma);
        } else {
            assert(mab.take(max as int).take(ma.len() as int) =~= ma);
        }
    } else {
        assert(mab.take(max as int) =~= ma.take(max as int));
    }
    if shown(a, filter, max).len() == max {
        if ma.len() <= max {
            assert(ma.len() == max);
            assert(mab.take(max as int) =~= ma);
        }
    }
}


/// A single departure is kept exactly when it passes the filter.
pub proof fn lemma_matching_single(d: Departure, filter: Option<Seq<char>>)
    ensures
        heads_towards(d.destination@, filter) ==> matching(seq![d], filter) == seq![d],
        !heads_towards(d.destination@, filter) ==> matching(seq![d], filter) == Seq::<
            Departure,
        >::empty(),
{
    assert(seq![d].drop_last() =~= Seq::<Departure>::empty());
    assert(matching(Seq::<Departure>::empty(), filter) == Seq::<Departure>::empty());
    assert(seq![d].last() == d);
    assert(Seq::<Departure>::empty().push(d) =~= seq![d]);
}

} // verus!
