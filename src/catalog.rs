use vstd::multiset::Multiset;
use vstd::prelude::*;

use crate::model::{forms_of, CatalogEntry, Pokemon, Species};
use crate::text::{
    has_prefix, lemma_bytes_le_transitive, name_bytes, name_has_prefix, name_le, names_in_order,
};

verus! {

broadcast use vstd::seq_lib::group_seq_properties;

/// The entries are in ascending order of name.
pub open spec fn sorted_by_name(s: Seq<CatalogEntry>) -> bool {
    forall|i: int, j: int| 0 <= i < j < s.len() ==> name_le(#[trigger] s[i].name@, #[trigger] s[j].name@)
}

/// The entries whose name starts with `prefix`, in their order.
pub open spec fn with_prefix(all: Seq<CatalogEntry>, prefix: Seq<char>) -> Seq<CatalogEntry> {
    all.filter(|e: CatalogEntry| name_has_prefix(e.name@, prefix))
}

proof fn lemma_name_le_transitive(a: Seq<char>, b: Seq<char>, c: Seq<char>)
    requires
        name_le(a, b),
        name_le(b, c),
    ensures
        name_le(a, c),
{
    lemma_bytes_le_transitive(name_bytes(a), name_bytes(b), name_bytes(c));
}

/// Sorts the entries by name, ascending; entries of equal name keep their
/// order.
pub fn sort_by_name(entries: Vec<CatalogEntry>) -> (r: Vec<CatalogEntry>)
    ensures
        sorted_by_name(r@),
        r@.to_multiset() == entries@.to_multiset(),
{
    let mut r: Vec<CatalogEntry> = Vec::new();
    let mut rest = entries;
    let ghost all = rest@;
    while rest.len() > 0
        invariant
            sorted_by_name(r@),
            r@.to_multiset().add(rest@.to_multiset()) == all.to_multiset(),
        decreases rest@.len(),
    {
        let ghost before = rest@;
        let x = rest.remove(0);
        proof {
            before.to_multiset_ensures();
            assert(rest@ == before.remove(0));
        }
        let mut pos: usize = r.len();
        while pos > 0 && !names_in_order(r[pos - 1].name.as_str(), x.name.as_str())
            invariant
                pos <= r@.len(),
                sorted_by_name(r@),
                forall|k: int| pos <= k < r@.len() ==> name_le(x.name@, #[trigger] r@[k].name@),
            decreases pos,
        {
            pos = pos - 1;
        }
        let ghost old_r = r@;
        proof {
            if pos > 0 {
                assert forall|k: int| 0 <= k < pos implies name_le(#[trigger] old_r[k].name@, x.name@) by {
                    if k < pos - 1 {
                        lemma_name_le_transitive(old_r[k].name@, old_r[pos - 1].name@, x.name@);
                    }
                }
            }
        }
        r.insert(pos, x);
        proof {
            old_r.insert_ensures(pos as int, x);
            assert(r@.remove(pos as int) =~= old_r);
            r@.to_multiset_ensures();
            assert(r@.to_multiset() =~= old_r.to_multiset().insert(x));
            assert forall|i: int, j: int| 0 <= i < j < r@.len() implies name_le(
                #[trigger] r@[i].name@,
                #[trigger] r@[j].name@,
            ) by {
                if j < pos {
                } else if j == pos {
                } else if i < pos {
                    lemma_name_le_transitive(r@[i].name@, x.name@, r@[j].name@);
                } else if i == pos {
                } else {
                    assert(r@[i] == old_r[i - 1]);
                    assert(r@[j] == old_r[j - 1]);
                }
            }
        }
    }
    proof {
        assert(rest@.to_multiset() =~= Multiset::empty());
        assert(r@.to_multiset() =~= all.to_multiset());
    }
    r
}

/// The entries of `all` whose name starts with `prefix`, in their order.
pub fn select_candidates(all: &Vec<CatalogEntry>, prefix: &str) -> (r: Vec<CatalogEntry>)
    ensures
        r@ == with_prefix(all@, prefix@),
{
    let mut r: Vec<CatalogEntry> = Vec::new();
    let mut i: usize = 0;
    while i < all.len()
        invariant
            i <= all@.len(),
            r@ == with_prefix(all@.take(i as int), prefix@),
        decreases all@.len() - i,
    {
        let keep = has_prefix(all[i].name.as_str(), prefix);
        proof {
            reveal(Seq::filter);
            assert(all@.take(i + 1).drop_last() =~= all@.take(i as int));
        }
        if keep {
            r.push(all[i].duplicate());
        }
        i = i + 1;
    }
    assert(all@.take(i as int) =~= all@);
    r
}

/// The pokemon resolved, one for each candidate selected for a species and
/// each named as its candidate, all answer to that species: a selection
/// load that resolves its candidates faithfully is always published.
pub proof fn lemma_resolved_candidates_answer_to_species(
    all: Seq<CatalogEntry>,
    species: Species,
    pokemon: Seq<Pokemon>,
)
    requires
        pokemon.len() == with_prefix(all, species.name@).len(),
        forall|i: int|
            0 <= i < pokemon.len() ==> (#[trigger] pokemon[i]).name@ == with_prefix(
                all,
                species.name@,
            )[i].name@,
    ensures
        forms_of(species, pokemon),
{
    let pred = |e: CatalogEntry| name_has_prefix(e.name@, species.name@);
    assert forall|i: int| 0 <= i < pokemon.len() implies name_has_prefix(
        #[trigger] pokemon[i].name@,
        species.name@,
    ) by {
        all.lemma_filter_pred(pred, i);
    }
}

} // verus!
