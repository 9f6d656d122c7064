//! Lists of keyed values in which a key may occur more than once and the
//! last entry with a key is the one that counts.

use vstd::prelude::*;

verus! {

/// What the list holds under `key`: the value of the last entry with that
/// key, if there is one.
pub open spec fn entry<K, V>(pairs: Seq<(K, V)>, key: K) -> Option<V>
    decreases pairs.len(),
{
    if pairs.len() == 0 {
        None
    } else if pairs.last().0 == key {
        Some(pairs.last().1)
    } else {
        entry(pairs.drop_last(), key)
    }
}

/// The list without the entry that counts for `key`.
pub open spec fn without<K, V>(pairs: Seq<(K, V)>, key: K) -> Seq<(K, V)>
    decreases pairs.len(),
{
    if pairs.len() == 0 {
        pairs
    } else if pairs.last().0 == key {
        pairs.drop_last()
    } else {
        without(pairs.drop_last(), key).push(pairs.last())
    }
}

/// A key that no entry carries is not found.
pub proof fn lemma_entry_absent<K, V>(pairs: Seq<(K, V)>, key: K)
    requires
        forall|j: int| 0 <= j < pairs.len() ==> pairs[j].0 != key,
    ensures
        entry(pairs, key) is None,
        without(pairs, key) == pairs,
    decreases pairs.len(),
{
    if pairs.len() > 0 {
        lemma_entry_absent(pairs.drop_last(), key);
        assert(pairs.drop_last().push(pairs.last()) =~= pairs);
    }
}

/// The entry at `at` is the one that counts for its key when no later entry
/// has that key.
pub proof fn lemma_entry_found<K, V>(pairs: Seq<(K, V)>, key: K, at: int)
    requires
        0 <= at < pairs.len(),
        pairs[at].0 == key,
        forall|j: int| at < j < pairs.len() ==> pairs[j].0 != key,
    ensures
        entry(pairs, key) == Some(pairs[at].1),
        without(pairs, key) == pairs.remove(at),
    decreases pairs.len(),
{
    if at < pairs.len() - 1 {
        lemma_entry_found(pairs.drop_last(), key, at);
        assert(pairs.drop_last().remove(at).push(pairs.last()) =~= pairs.remove(at));
    } else {
        assert(pairs.drop_last() =~= pairs.remove(at));
    }
}

/// Taking the entry for one key out leaves every other key as it was.
pub proof fn lemma_entry_without<K, V>(pairs: Seq<(K, V)>, key: K, other: K)
    requires
        other != key,
    ensures
        entry(without(pairs, key), other) == entry(pairs, other),
    decreases pairs.len(),
{
    if pairs.len() > 0 && pairs.last().0 != key {
        lemma_entry_without(pairs.drop_last(), key, other);
        let rest = without(pairs.drop_last(), key).push(pairs.last());
        assert(rest.last() == pairs.last());
        assert(rest.drop_last() =~= without(pairs.drop_last(), key));
    }
}

/// How many entries of the list have `key`.
pub open spec fn occurrences<K, V>(pairs: Seq<(K, V)>, key: K) -> nat
    decreases pairs.len(),
{
    if pairs.len() == 0 {
        0
    } else if pairs.last().0 == key {
        occurrences(pairs.drop_last(), key) + 1
    } else {
        occurrences(pairs.drop_last(), key)
    }
}

/// Whether more than one entry of the list has `key`.
pub open spec fn repeated<K, V>(pairs: Seq<(K, V)>, key: K) -> bool {
    occurrences(pairs, key) > 1
}

/// One more entry of the list counts towards its key and towards no other.
pub proof fn lemma_occurrences_step<K, V>(pairs: Seq<(K, V)>, upto: int, key: K)
    requires
        0 <= upto < pairs.len(),
    ensures
        pairs[upto].0 == key ==> occurrences(pairs.take(upto + 1), key) == occurrences(
            pairs.take(upto),
            key,
        ) + 1,
        pairs[upto].0 != key ==> occurrences(pairs.take(upto + 1), key) == occurrences(
            pairs.take(upto),
            key,
        ),
{
    assert(pairs.take(upto + 1).drop_last() =~= pairs.take(upto));
}

} // verus!
