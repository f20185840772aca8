//! What the contracts say of keys: of a sequence of keys that loses one, and
//! of a key that is made fresh.

use vstd::prelude::*;

verus! {

/// `keys` without `key`; `keys` itself where `key` does not occur in it.
pub open spec fn without(keys: Seq<Seq<char>>, key: Seq<char>) -> Seq<Seq<char>> {
    if keys.contains(key) {
        keys.remove(keys.index_of(key))
    } else {
        keys
    }
}

/// In a sequence without repetition, removing a key leaves exactly the other
/// keys, in their order.
pub proof fn lemma_without(keys: Seq<Seq<char>>, key: Seq<char>)
    requires
        keys.no_duplicates(),
    ensures
        without(keys, key).no_duplicates(),
        !without(keys, key).contains(key),
        forall|k: Seq<char>| k != key ==> (without(keys, key).contains(k) <==> keys.contains(k)),
        keys.contains(key) ==> without(keys, key).len() == keys.len() - 1,
        !keys.contains(key) ==> without(keys, key) == keys,
{
    if keys.contains(key) {
        let i = keys.index_of(key);
        let rest = keys.remove(i);
        assert forall|a: int| 0 <= a < rest.len() implies rest[a] == keys[if a < i {
            a
        } else {
            a + 1
        }] by {}
        assert forall|k: Seq<char>| k != key && keys.contains(k) implies rest.contains(k) by {
            let j = keys.index_of(k);
            if j < i {
                assert(rest[j] == k);
            } else {
                assert(rest[j - 1] == k);
            }
        }
    }
}

/// `candidate` followed by `n` times the digit `0`.
pub open spec fn padded(candidate: Seq<char>, n: nat) -> Seq<char> {
    candidate + Seq::new(n, |i: int| '0')
}

/// `key` is the shortest of `candidate`, `candidate` and a `0`, `candidate`
/// and two, and so on, that is not among `taken`.
pub open spec fn first_unused(taken: Set<Seq<char>>, candidate: Seq<char>, key: Seq<char>) -> bool {
    exists|n: nat|
        {
            &&& #[trigger] padded(candidate, n) == key
            &&& !taken.contains(key)
            &&& forall|m: nat| m < n ==> taken.contains(#[trigger] padded(candidate, m))
        }
}

/// The length of the longest of `keys`.
pub open spec fn longest(keys: Seq<Seq<char>>) -> nat
    decreases keys.len(),
{
    if keys.len() == 0 {
        0
    } else if keys.last().len() > longest(keys.drop_last()) {
        keys.last().len()
    } else {
        longest(keys.drop_last())
    }
}

/// None of `keys` is longer than the longest of them.
pub proof fn lemma_longest(keys: Seq<Seq<char>>, i: int)
    requires
        0 <= i < keys.len(),
    ensures
        keys[i].len() <= longest(keys),
    decreases keys.len(),
{
    if i < keys.len() - 1 {
        lemma_longest(keys.drop_last(), i);
    }
}

} // verus!
