//! The texts that the command line front end shows for departures and
//! favourites.

use vstd::prelude::*;
use crate::favorites::Favorite;
use crate::models::Departure;
use crate::text::{
    all_digits, decimal, decimal_value, i64_to_decimal, lemma_decimal_round_trip,
    lemma_signed_decimal, signed_decimal, u64_to_decimal,
};

verus! {

/// The monitor's relative time: `Now` once due, else `{minutes} min`.
pub open spec fn monitor_relative_text(diff_minutes: int) -> Seq<char> {
    if diff_minutes <= 0 {
        "Now"@
    } else {
        decimal(diff_minutes as nat) + " min"@
    }
}

/// The departure board's relative time: `now` once due, else `in {minutes} min`.
pub open spec fn board_relative_text(diff_minutes: int) -> Seq<char> {
    if diff_minutes <= 0 {
        "now"@
    } else {
        "in "@ + decimal(diff_minutes as nat) + " min"@
    }
}

/// The delay of a departure in minutes; none reported counts as none.
pub open spec fn delay_of(dep: Departure) -> int {
    match dep.delay_in_minutes {
        Some(d) => d as int,
        None => 0,
    }
}

/// The monitor's delay text: a `+` before the signed delay.
pub open spec fn delay_text_of(delay: int) -> Seq<char> {
    "+"@ + signed_decimal(delay)
}

/// The direction shown for a favourite: its filter, or `Any`.
pub open spec fn direction_text(fav: Favorite) -> Seq<char> {
    match fav.direction_filter {
        Some(d) => d@,
        None => "Any"@,
    }
}

/// The monitor's relative time for a departure due in `diff_minutes`.
pub fn monitor_relative(diff_minutes: i64) -> (r: String)
    ensures
        r@ == monitor_relative_text(diff_minutes as int),
{
    if diff_minutes <= 0 {
        String::from_str("Now")
    } else {
        let mut s = u64_to_decimal(diff_minutes as u64);
        s.append(" min");
        s
    }
}

/// The departure board's relative time for a departure due in `diff_minutes`.
pub fn board_relative(diff_minutes: i64) -> (r: String)
    ensures
        r@ == board_relative_text(diff_minutes as int),
{
    if diff_minutes <= 0 {
        String::from_str("now")
    } else {
        let mut s = String::from_str("in ");
        let n = u64_to_decimal(diff_minutes as u64);
        s.append(n.as_str());
        s.append(" min");
        s
    }
}

/// How the monitor shows the delay of a departure: the text (`+` before
/// the delay in minutes, 0 where none is reported), and whether it counts
/// as late (a positive delay, shown as a warning).
pub fn delay_display(dep: &Departure) -> (r: (String, bool))
    ensures
        r.0@ == delay_text_of(delay_of(*dep)),
        r.1 == (delay_of(*dep) > 0),
{
    let delay: i32 = match dep.delay_in_minutes {
        Some(d) => d,
        None => 0,
    };
    let mut s = String::from_str("+");
    let n = i64_to_decimal(delay as i64);
    s.append(n.as_str());
    (s, delay > 0)
}

/// The direction shown for a favourite in the list.
pub fn direction_label(fav: &Favorite) -> (r: &str)
    ensures
        r@ == direction_text(*fav),
{
    match &fav.direction_filter {
        Some(d) => d.as_str(),
        None => "Any",
    }
}


/// The relative times: a departure that is due (0 minutes or less) shows
/// `Now` on the monitor and `now` on the board; one `d > 0` minutes away
/// shows the full decimal number `d` followed by ` min` on the monitor, and
/// `in `, that number and ` min` on the board.
pub proof fn lemma_relative_texts(d: int)
    ensures
        d <= 0 ==> monitor_relative_text(d) == "Now"@ && board_relative_text(d) == "now"@,
        d > 0 ==> {
            let t = monitor_relative_text(d);
            let digits = t.take(t.len() - 4);
            &&& t.len() >= 5
            &&& t.skip(t.len() - 4) == " min"@
            &&& all_digits(digits)
            &&& decimal_value(digits) == d
        },
        d > 0 ==> {
            let t = board_relative_text(d);
            let digits = t.subrange(3, t.len() - 4);
            &&& t.len() >= 8
            &&& t.take(3) == "in "@
            &&& t.skip(t.len() - 4) == " min"@
            &&& all_digits(digits)
            &&& decimal_value(digits) == d
        },
{
    if d > 0 {
        reveal_strlit(" min");
        reveal_strlit("in ");
        lemma_decimal_round_trip(d as nat);
        let n = decimal(d as nat);
        let t = n + " min"@;
        assert(t.take(t.len() - 4) =~= n);
        assert(t.skip(t.len() - 4) =~= " min"@);
        let b = "in "@ + n + " min"@;
        assert(b.subrange(3, b.len() - 4) =~= n);
        assert(b.take(3) =~= "in "@);
        assert(b.skip(b.len() - 4) =~= " min"@);
    }
}

/// The delay text is `+` followed by the signed decimal of the delay: its
/// digits when it is not negative, `-` and the digits of its size when it
/// is negative.
pub proof fn lemma_delay_text(delay: int)
    ensures
        ({
            let t = delay_text_of(delay);
            let rest = t.drop_first();
            &&& t.len() >= 2
            &&& t[0] == '+'
            &&& (delay >= 0 ==> all_digits(rest) && decimal_value(rest) == delay)
            &&& (delay < 0 ==> rest[0] == '-' && all_digits(rest.drop_first()) && decimal_value(
                rest.drop_first(),
            ) == -delay)
        }),
{
    reveal_strlit("+");
    lemma_signed_decimal(delay);
    let t = "+"@ + signed_decimal(delay);
    assert(t.drop_first() =~= signed_decimal(delay));
}

/// The list shows a favourite's direction filter as it was saved, and
/// `Any` where it has none.
pub proof fn lemma_direction_text(fav: Favorite)
    ensures
        fav.direction_filter matches Some(d) ==> direction_text(fav) == d@,
        fav.direction_filter is None ==> direction_text(fav) == "Any"@,
{
}

} // verus!
