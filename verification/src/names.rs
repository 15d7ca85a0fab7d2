//! Sorted lists of metric names.

use crate::text::{
    lemma_lex_lt_connected, lemma_lex_lt_irreflexive, lemma_lex_lt_transitive, lex_lt, str_lt,
};
use vstd::prelude::*;

verus! {

/// Whether `names` ascends strictly: each name sorts before every later one.
pub open spec fn strictly_sorted(names: Seq<Seq<char>>) -> bool {
    forall|i: int, j: int| 0 <= i < j < names.len() ==> lex_lt(names[i], names[j])
}

/// How many entries of `names` sort before `name`.
pub open spec fn rank(names: Seq<Seq<char>>, name: Seq<char>) -> int
    decreases names.len(),
{
    if names.len() == 0 {
        0
    } else {
        rank(names.drop_last(), name) + if lex_lt(names.last(), name) {
            1int
        } else {
            0int
        }
    }
}

/// `names` with `name` put in behind the entries that sort before it.
pub open spec fn insert_sorted(names: Seq<Seq<char>>, name: Seq<char>) -> Seq<Seq<char>> {
    names.insert(rank(names, name), name)
}

/// A rank lies within the list.
pub proof fn lemma_rank_bounds(names: Seq<Seq<char>>, name: Seq<char>)
    ensures
        0 <= rank(names, name) <= names.len(),
    decreases names.len(),
{
    if names.len() > 0 {
        lemma_rank_bounds(names.drop_last(), name);
    }
}

/// In a sorted list the entries that sort before `name` are exactly the first
/// `rank` ones.
pub proof fn lemma_rank_splits(names: Seq<Seq<char>>, name: Seq<char>)
    requires
        strictly_sorted(names),
    ensures
        0 <= rank(names, name) <= names.len(),
        forall|i: int| 0 <= i < rank(names, name) ==> lex_lt(#[trigger] names[i], name),
        forall|i: int| rank(names, name) <= i < names.len() ==> !lex_lt(#[trigger] names[i], name),
    decreases names.len(),
{
    if names.len() > 0 {
        let earlier = names.drop_last();
        lemma_rank_splits(earlier, name);
        let k = rank(earlier, name);
        if lex_lt(names.last(), name) && k < earlier.len() {
            // Everything sorts before the last entry, which sorts before `name`.
            lemma_lex_lt_transitive(names[k], names.last(), name);
            assert(lex_lt(earlier[k], name));
        }
        assert forall|i: int| 0 <= i < rank(names, name) implies lex_lt(
            #[trigger] names[i],
            name,
        ) by {
            if i < earlier.len() {
                assert(names[i] == earlier[i]);
            }
        }
        assert forall|i: int| rank(names, name) <= i < names.len() implies !lex_lt(
            #[trigger] names[i],
            name,
        ) by {
            if i < earlier.len() {
                assert(names[i] == earlier[i]);
            }
        }
    }
}

/// A strictly ascending list names nothing twice.
pub proof fn lemma_sorted_no_duplicates(names: Seq<Seq<char>>)
    requires
        strictly_sorted(names),
    ensures
        names.no_duplicates(),
{
    assert forall|i: int, j: int|
        0 <= i < names.len() && 0 <= j < names.len() && i != j implies names[i] != names[j] by {
        lemma_lex_lt_irreflexive(names[i]);
    }
}

/// Putting a new name into a sorted list keeps the list sorted, and adds that
/// name and no other.
pub proof fn lemma_insert_sorted(names: Seq<Seq<char>>, name: Seq<char>)
    requires
        strictly_sorted(names),
        !names.contains(name),
    ensures
        strictly_sorted(insert_sorted(names, name)),
        insert_sorted(names, name).len() == names.len() + 1,
        insert_sorted(names, name).no_duplicates(),
        forall|other: Seq<char>|
            insert_sorted(names, name).contains(other) <==> (other == name || names.contains(
                other,
            )),
{
    lemma_rank_splits(names, name);
    let k = rank(names, name);
    let grown = insert_sorted(names, name);
    assert forall|i: int, j: int| 0 <= i < j < grown.len() implies lex_lt(grown[i], grown[j]) by {
        if i == k {
            // What follows `name` does not sort before it, and differs from it.
            lemma_lex_lt_connected(names[j - 1], name);
        }
    }
    lemma_sorted_no_duplicates(grown);
    assert forall|other: Seq<char>|
        grown.contains(other) <==> (other == name || names.contains(other)) by {
        if other == name {
            assert(grown[k] == other);
        }
        if names.contains(other) {
            let i = choose|i: int| 0 <= i < names.len() && names[i] == other;
            if i < k {
                assert(grown[i] == other);
            } else {
                assert(grown[i + 1] == other);
            }
        }
    }
}

/// Whether `names` holds `name`.
pub fn contains_name(names: &Vec<String>, name: &String) -> (found: bool)
    ensures
        found == names.deep_view().contains(name@),
{
    let mut i: usize = 0;
    while i < names.len()
        invariant
            i <= names.len(),
            forall|k: int| 0 <= k < i ==> names.deep_view()[k] != name@,
        decreases names.len() - i,
    {
        if names[i] == *name {
            assert(names.deep_view()[i as int] == name@);
            return true;
        }
        i += 1;
    }
    false
}

/// Counts the entries of `names` that sort before `name`.
pub fn rank_of(names: &Vec<String>, name: &String) -> (k: usize)
    ensures
        k == rank(names.deep_view(), name@),
{
    let mut k: usize = 0;
    let mut i: usize = 0;
    while i < names.len()
        invariant
            i <= names.len(),
            k <= i,
            k == rank(names.deep_view().take(i as int), name@),
        decreases names.len() - i,
    {
        proof {
            let taken = names.deep_view().take(i + 1);
            assert(taken.drop_last() =~= names.deep_view().take(i as int));
        }
        if str_lt(names[i].as_str(), name.as_str()) {
            k += 1;
        }
        i += 1;
    }
    assert(names.deep_view().take(i as int) =~= names.deep_view());
    k
}

/// Puts `name` into `names` behind the entries that sort before it.
pub fn insert_name(names: &mut Vec<String>, name: String)
    ensures
        final(names).deep_view() == insert_sorted(old(names).deep_view(), name@),
{
    let k = rank_of(names, &name);
    proof {
        lemma_rank_bounds(names.deep_view(), name@);
    }
    names.insert(k, name);
}

} // verus!
