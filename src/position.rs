//! The first position of a key in a sequence of keys, on which the
//! blackboard's and a section's first-match lookups rest.
use vstd::prelude::*;

verus! {

/// `key` occurs in `keys`.
pub open spec fn key_occurs<K>(keys: Seq<K>, key: K) -> bool {
    exists|i: int| 0 <= i < keys.len() && #[trigger] keys[i] == key
}

/// `i` is the first position of `key` in `keys`.
pub open spec fn is_first_position<K>(keys: Seq<K>, key: K, i: int) -> bool {
    &&& 0 <= i < keys.len()
    &&& keys[i] == key
    &&& forall|j: int| 0 <= j < i ==> #[trigger] keys[j] != key
}

/// The first position of `key` in `keys` (meaningful where it occurs).
pub open spec fn first_position<K>(keys: Seq<K>, key: K) -> int {
    choose|i: int| is_first_position(keys, key, i)
}

/// An occurrence of `key` at `w` means that some position is the first.
proof fn lemma_first_position_at_most<K>(keys: Seq<K>, key: K, w: int)
    requires
        0 <= w < keys.len(),
        keys[w] == key,
    ensures
        exists|i: int| is_first_position(keys, key, i),
    decreases w,
{
    if exists|j: int| 0 <= j < w && #[trigger] keys[j] == key {
        let j = choose|j: int| 0 <= j < w && #[trigger] keys[j] == key;
        lemma_first_position_at_most(keys, key, j);
    } else {
        assert(is_first_position(keys, key, w));
    }
}

/// Where `key` occurs, there is a first position, and only one.
pub proof fn lemma_first_position<K>(keys: Seq<K>, key: K)
    requires
        key_occurs(keys, key),
    ensures
        is_first_position(keys, key, first_position(keys, key)),
        forall|i: int| is_first_position(keys, key, i) ==> i == first_position(keys, key),
{
    let w = choose|w: int| 0 <= w < keys.len() && #[trigger] keys[w] == key;
    lemma_first_position_at_most(keys, key, w);
    let f = first_position(keys, key);
    assert forall|a: int| is_first_position(keys, key, a) implies a == f by {
        if a < f {
            assert(keys[a] == key);
        } else if f < a {
            assert(keys[f] == key);
        }
    }
}

} // verus!
