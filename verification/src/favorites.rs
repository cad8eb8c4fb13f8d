//! Favourite stations of the command line front end, and the departures
//! that its monitor shows for each of them.

use vstd::prelude::*;

verus! {

/// A saved station, under a short alias, with an optional direction filter.
#[derive(Debug, Clone)]
pub struct Favorite {
    pub alias: String,
    pub station_name: String,
    pub station_id: String,
    pub direction_filter: Option<String>,
}

/// The saved configuration: the favourites, in the order they were added.
#[derive(Debug)]
pub struct AppConfig {
    pub favorites: Vec<Favorite>,
}

/// The favourites whose alias is not `alias`, in their order.
pub open spec fn without_alias(favs: Seq<Favorite>, alias: Seq<char>) -> Seq<Favorite>
    decreases favs.len(),
{
    if favs.len() == 0 {
        Seq::empty()
    } else {
        let rest = without_alias(favs.drop_last(), alias);
        if favs.last().alias@ == alias {
            rest
        } else {
            rest.push(favs.last())
        }
    }
}

/// Some favourite is saved under `alias`.
pub open spec fn has_alias(favs: Seq<Favorite>, alias: Seq<char>) -> bool {
    exists|i: int| 0 <= i < favs.len() && #[trigger] favs[i].alias@ == alias
}

impl Default for AppConfig {
    fn default() -> (r: Self)
        ensures
            r.favorites@ == Seq::<Favorite>::empty(),
    {
        AppConfig { favorites: Vec::new() }
    }
}

impl AppConfig {
    /// Saves a new favourite after the existing ones.
    pub fn add_favorite(&mut self, fav: Favorite)
        ensures
            final(self).favorites@ == old(self).favorites@.push(fav),
    {
        self.favorites.push(fav);
    }

    /// Removes every favourite saved under `alias`, keeping the order of the
    /// others; answers whether one was removed.
    pub fn remove_favorite(&mut self, alias: &str) -> (removed: bool)
        ensures
            final(self).favorites@ == without_alias(old(self).favorites@, alias@),
            removed == has_alias(old(self).favorites@, alias@),
            removed <==> final(self).favorites@.len() < old(self).favorites@.len(),
    {
        let key = String::from_str(alias);
        let mut old_favs: Vec<Favorite> = Vec::new();
        std::mem::swap(&mut old_favs, &mut self.favorites);
        let ghost orig = old_favs@;
        let mut kept: Vec<Favorite> = Vec::new();
        let mut removed = false;
        let mut rest = old_favs;
        let mut i: usize = 0;
        let n: usize = rest.len();
        while rest.len() > 0
            invariant
                i + rest@.len() == n,
                n == orig.len(),
                rest@ == orig.skip(i as int),
                key@ == alias@,
                kept@ == without_alias(orig.take(i as int), alias@),
                removed == has_alias(orig.take(i as int), alias@),
            decreases rest@.len(),
        {
            let f = rest.remove(0);
            proof {
                assert(orig.take(i + 1).drop_last() =~= orig.take(i as int));
                assert(orig.take(i + 1).last() == f);
                assert(rest@ =~= orig.skip(i + 1));
                if has_alias(orig.take(i as int), alias@) {
                    let j = choose|j: int|
                        0 <= j < i && #[trigger] orig.take(i as int)[j].alias@ == alias@;
                    assert(orig.take(i + 1)[j] == orig.take(i as int)[j]);
                }
                if has_alias(orig.take(i + 1), alias@) && f.alias@ != alias@ {
                    let j = choose|j: int|
                        0 <= j < i + 1 && #[trigger] orig.take(i + 1)[j].alias@ == alias@;
                    assert(orig.take(i as int)[j] == orig.take(i + 1)[j]);
                }
                if f.alias@ == alias@ {
                    assert(orig.take(i + 1)[i as int] == f);
                }
            }
            if f.alias == key {
                removed = true;
            } else {
                kept.push(f);
            }
            i = i + 1;
        }
        proof {
            assert(orig.take(n as int) =~= orig);
            lemma_without_alias_shrinks(orig, alias@);
        }
        self.favorites = kept;
        removed
    }
}

/// Removing an alias shortens the list exactly when the alias was saved.
pub proof fn lemma_without_alias_shrinks(favs: Seq<Favorite>, alias: Seq<char>)
    ensures
        without_alias(favs, alias).len() <= favs.len(),
        has_alias(favs, alias) <==> without_alias(favs, alias).len() < favs.len(),
    decreases favs.len(),
{
    if favs.len() > 0 {
        let init = favs.drop_last();
        lemma_without_alias_shrinks(init, alias);
        if has_alias(init, alias) {
            let j = choose|j: int| 0 <= j < init.len() && #[trigger] init[j].alias@ == alias;
            assert(favs[j] == init[j]);
        }
        if has_alias(favs, alias) && favs.last().alias@ != alias {
            let j = choose|j: int| 0 <= j < favs.len() && #[trigger] favs[j].alias@ == alias;
            assert(init[j] == favs[j]);
        }
        if favs.last().alias@ == alias {
            assert(favs[favs.len() - 1].alias@ == alias);
        }
    }
}

/// After a removal no favourite is saved under the alias, and every other
/// favourite is still there.
pub proof fn lemma_remove_favorite_effect(favs: Seq<Favorite>, alias: Seq<char>)
    ensures
        !has_alias(without_alias(favs, alias), alias),
        forall|f: Favorite| #[trigger]
            favs.contains(f) && f.alias@ != alias ==> without_alias(favs, alias).contains(f),
        forall|f: Favorite| #[trigger]
            without_alias(favs, alias).contains(f) ==> favs.contains(f),
    decreases favs.len(),
{
    if favs.len() > 0 {
        let init = favs.drop_last();
        let rest = without_alias(init, alias);
        lemma_remove_favorite_effect(init, alias);
        assert forall|f: Favorite| #[trigger]
            favs.contains(f) && f.alias@ != alias implies without_alias(favs, alias).contains(f) by {
            let j = choose|j: int| 0 <= j < favs.len() && favs[j] == f;
            if j < init.len() {
                assert(init[j] == f);
                assert(init.contains(f));
                assert(rest.contains(f));
                let k = choose|k: int| 0 <= k < rest.len() && rest[k] == f;
                if favs.last().alias@ != alias {
                    assert(rest.push(favs.last())[k] == f);
                }
            } else {
                assert(without_alias(favs, alias) == rest.push(favs.last()));
                assert(rest.push(favs.last())[rest.len() as int] == f);
            }
        }
        assert forall|f: Favorite| #[trigger]
            without_alias(favs, alias).contains(f) implies favs.contains(f) by {
            let r = without_alias(favs, alias);
            let k = choose|k: int| 0 <= k < r.len() && r[k] == f;
            if k < rest.len() {
                assert(rest[k] == f);
                assert(rest.contains(f));
                let j = choose|j: int| 0 <= j < init.len() && init[j] == f;
                assert(favs[j] == f);
            } else {
                assert(favs[favs.len() - 1] == f);
            }
        }
        if has_alias(without_alias(favs, alias), alias) {
            let r = without_alias(favs, alias);
            let k = choose|k: int| 0 <= k < r.len() && #[trigger] r[k].alias@ == alias;
            if k < rest.len() {
                assert(rest[k].alias@ == alias);
            }
        }
    }
}

/// Saving a favourite under an alias that no favourite has yet, and then
/// removing that alias, gives back the favourites as they were.
pub proof fn lemma_remove_undoes_add(favs: Seq<Favorite>, fav: Favorite)
    requires
        !has_alias(favs, fav.alias@),
    ensures
        without_alias(favs.push(fav), fav.alias@) == favs,
{
    lemma_without_alias_keeps_all(favs, fav.alias@);
    assert(favs.push(fav).drop_last() =~= favs);
}

/// Removing an alias that no favourite has changes nothing.
pub proof fn lemma_without_alias_keeps_all(favs: Seq<Favorite>, alias: Seq<char>)
    requires
        !has_alias(favs, alias),
    ensures
        without_alias(favs, alias) == favs,
    decreases favs.len(),
{
    if favs.len() > 0 {
        let init = favs.drop_last();
        assert forall|j: int| 0 <= j < init.len() implies #[trigger] init[j].alias@ != alias by {
            assert(favs[j] == init[j]);
        }
        lemma_without_alias_keeps_all(init, alias);
        assert(favs[favs.len() - 1].alias@ != alias);
        assert(init.push(favs.last()) =~= favs);
    }
}


/// Removing an alias from two runs of favourites one after the other gives
/// the first run without it followed by the second run without it: the
/// others keep their order, and each favourite is judged by its own alias.
pub proof fn lemma_without_alias_append(a: Seq<Favorite>, b: Seq<Favorite>, alias: Seq<char>)
    ensures
        without_alias(a + b, alias) == without_alias(a, alias) + without_alias(b, alias),
    decreases b.len(),
{
    if b.len() == 0 {
        assert(a + b =~= a);
        assert(without_alias(a, alias) + without_alias(b, alias) =~= without_alias(a, alias));
    } else {
        lemma_without_alias_append(a, b.drop_last(), alias);
        assert((a + b).drop_last() =~= a + b.drop_last());
        assert((a + b).last() == b.last());
        let wa = without_alias(a, alias);
        let wb = without_alias(b.drop_last(), alias);
        assert((wa + wb).push(b.last()) =~= wa + wb.push(b.last()));
    }
}

/// A single favourite is dropped exactly when it has the alias.
pub proof fn lemma_without_alias_single(f: Favorite, alias: Seq<char>)
    ensures
        f.alias@ == alias ==> without_alias(seq![f], alias) == Seq::<Favorite>::empty(),
        f.alias@ != alias ==> without_alias(seq![f], alias) == seq![f],
{
    assert(seq![f].drop_last() =~= Seq::<Favorite>::empty());
    assert(without_alias(Seq::<Favorite>::empty(), alias) == Seq::<Favorite>::empty());
    assert(seq![f].last() == f);
    assert(Seq::<Favorite>::empty().push(f) =~= seq![f]);
}

} // verus!
