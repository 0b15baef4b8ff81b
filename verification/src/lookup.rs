//! First-match association lookup over a sequence of key/value pairs, shared
//! by the environment, object-key and variant-name lookups.  Order matters
//! throughout the pipeline, so a lookup always means "the first entry with
//! this key".

use vstd::prelude::*;

verus! {

/// The value of the first entry of `entries` whose key is `key`, if any.
pub open spec fn assoc<V>(entries: Seq<(Seq<char>, V)>, key: Seq<char>) -> Option<V>
    decreases entries.len(),
{
    if entries.len() == 0 {
        None
    } else if entries[0].0 == key {
        Some(entries[0].1)
    } else {
        assoc(entries.drop_first(), key)
    }
}

/// Skipping a prefix with no matching key leaves the lookup unchanged.
pub proof fn lemma_assoc_skip<V>(entries: Seq<(Seq<char>, V)>, key: Seq<char>, i: int)
    requires
        0 <= i <= entries.len(),
        forall|j: int| 0 <= j < i ==> (#[trigger] entries[j]).0 != key,
    ensures
        assoc(entries, key) == assoc(entries.skip(i), key),
    decreases i,
{
    if i == 0 {
        assert(entries.skip(0) =~= entries);
    } else {
        assert(entries[0].0 != key);
        lemma_assoc_skip(entries.drop_first(), key, i - 1);
        assert(entries.drop_first().skip(i - 1) =~= entries.skip(i));
    }
}

/// If no key before position `i` matches and the key at `i` does, the lookup
/// returns the value at `i`.
pub proof fn lemma_assoc_at<V>(entries: Seq<(Seq<char>, V)>, key: Seq<char>, i: int)
    requires
        0 <= i < entries.len(),
        forall|j: int| 0 <= j < i ==> (#[trigger] entries[j]).0 != key,
        entries[i].0 == key,
    ensures
        assoc(entries, key) == Some(entries[i].1),
{
    lemma_assoc_skip(entries, key, i);
    assert(entries.skip(i)[0] == entries[i]);
}

/// If no key matches, the lookup returns nothing.
pub proof fn lemma_assoc_none<V>(entries: Seq<(Seq<char>, V)>, key: Seq<char>)
    requires
        forall|j: int| 0 <= j < entries.len() ==> (#[trigger] entries[j]).0 != key,
    ensures
        assoc(entries, key) is None,
{
    lemma_assoc_skip(entries, key, entries.len() as int);
    assert(entries.skip(entries.len() as int) =~= Seq::<(Seq<char>, V)>::empty());
}

/// A successful lookup really is the value of some entry with the key, and no
/// earlier entry carries the key.
pub proof fn lemma_assoc_some<V>(entries: Seq<(Seq<char>, V)>, key: Seq<char>)
    requires
        assoc(entries, key) is Some,
    ensures
        exists|i: int|
            0 <= i < entries.len() && (#[trigger] entries[i]).0 == key && entries[i].1
                == assoc(entries, key)->Some_0 && (forall|j: int|
                0 <= j < i ==> (#[trigger] entries[j]).0 != key),
    decreases entries.len(),
{
    if entries.len() > 0 {
        if entries[0].0 == key {
            assert(0 <= 0 < entries.len() && (entries[0]).0 == key && entries[0].1
                == assoc(entries, key)->Some_0 && (forall|j: int|
                0 <= j < 0 ==> (#[trigger] entries[j]).0 != key));
        } else {
            let rest = entries.drop_first();
            lemma_assoc_some(rest, key);
            let i0 = choose|i: int|
                0 <= i < rest.len() && (#[trigger] rest[i]).0 == key && rest[i].1 == assoc(
                    rest,
                    key,
                )->Some_0 && (forall|j: int| 0 <= j < i ==> (#[trigger] rest[j]).0 != key);
            assert(entries[i0 + 1] == rest[i0]);
            assert(forall|j: int|
                0 <= j < i0 + 1 ==> (#[trigger] entries[j]) == if j == 0 {
                    entries[0]
                } else {
                    rest[j - 1]
                });
            assert(0 <= i0 + 1 < entries.len() && (entries[i0 + 1]).0 == key && entries[
                i0 + 1].1 == assoc(entries, key)->Some_0 && (forall|j: int|
                0 <= j < i0 + 1 ==> (#[trigger] entries[j]).0 != key));
        }
    }
}

} // verus!
