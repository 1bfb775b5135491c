//! First-match lookup in an association list keyed by path strings.
//!
//! Both memoization caches of this library (chunking contexts keyed by
//! pathname, content nodes keyed by request path) are association lists in
//! insertion order; the first entry for a key wins, which realizes the
//! at-most-one-writer-per-key cache policy.

use vstd::prelude::*;

verus! {

/// Whether some entry carries the key `key`.
pub open spec fn assoc_has_key<V>(entries: Seq<(String, V)>, key: Seq<char>) -> bool {
    exists|k: int| 0 <= k < entries.len() && entries[k].0@ == key
}

/// No two entries carry the same key.
pub open spec fn unique_keys<V>(entries: Seq<(String, V)>) -> bool {
    forall|k1: int, k2: int|
        0 <= k1 < k2 < entries.len() ==> (#[trigger] entries[k1]).0@ != (
        #[trigger] entries[k2]).0@
}

/// Appending an entry for a fresh key keeps the keys unique.
pub proof fn lemma_unique_keys_push<V>(s: Seq<(String, V)>, e: (String, V))
    requires
        unique_keys(s),
        !assoc_has_key(s, e.0@),
    ensures
        unique_keys(s.push(e)),
{
    assert forall|k1: int, k2: int| 0 <= k1 < k2 < s.push(e).len() implies (#[trigger] s.push(
        e,
    )[k1]).0@ != (#[trigger] s.push(e)[k2]).0@ by {
        if k2 < s.len() {
            assert(s.push(e)[k1] == s[k1]);
            assert(s.push(e)[k2] == s[k2]);
        } else {
            assert(s.push(e)[k2] == e);
            assert(s.push(e)[k1] == s[k1]);
        }
    }
}

/// Index of the first entry whose key is `key`, if any.
pub fn find_entry<V>(entries: &Vec<(String, V)>, key: &String) -> (r: Option<usize>)
    ensures
        match r {
            Some(i) => i < entries@.len() && entries@[i as int].0@ == key@ && forall|j: int|
                0 <= j < i ==> entries@[j].0@ != key@,
            None => forall|j: int| 0 <= j < entries@.len() ==> entries@[j].0@ != key@,
        },
        r is Some <==> assoc_has_key(entries@, key@),
{
    let mut i: usize = 0;
    while i < entries.len()
        invariant
            i <= entries@.len(),
            forall|j: int| 0 <= j < i ==> entries@[j].0@ != key@,
        decreases entries@.len() - i,
    {
        if entries[i].0 == *key {
            return Some(i);
        }
        i = i + 1;
    }
    None
}

} // verus!
