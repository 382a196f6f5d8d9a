//! The 32-byte keys under which records are stored.

use vstd::prelude::*;

verus! {

/// True when the two keys hold the same bytes.
pub fn same_key(a: &[u8; 32], b: &[u8; 32]) -> (r: bool)
    ensures
        r == (a@ == b@),
{
    let mut i: usize = 0;
    while i < 32
        invariant
            i <= 32,
            forall|j: int| 0 <= j < i ==> a@[j] == b@[j],
        decreases 32 - i,
    {
        if a[i] != b[i] {
            return false;
        }
        i += 1;
    }
    assert(a@ =~= b@);
    true
}

/// `i` is the first place of `key` among `keys`.
pub open spec fn first_position(keys: Seq<[u8; 32]>, key: [u8; 32], i: int) -> bool {
    &&& 0 <= i < keys.len()
    &&& keys[i]@ == key@
    &&& forall|j: int| 0 <= j < i ==> keys[j]@ != key@
}

/// The first place of `key` among `keys`, where it has one.
pub open spec fn position_of(keys: Seq<[u8; 32]>, key: [u8; 32]) -> int {
    choose|i: int| first_position(keys, key, i)
}

/// The first place of `key` among `keys`, or `None` where it has none.
pub open spec fn key_position(keys: Seq<[u8; 32]>, key: [u8; 32]) -> Option<usize> {
    if exists|i: int| first_position(keys, key, i) {
        Some(position_of(keys, key) as usize)
    } else {
        None
    }
}

/// Looks `key` up among `keys`.
pub fn find_key(keys: &Vec<[u8; 32]>, key: &[u8; 32]) -> (r: Option<usize>)
    ensures
        r == key_position(keys@, *key),
        match r {
            Some(i) => first_position(keys@, *key, i as int),
            None => forall|i: int| 0 <= i < keys@.len() ==> keys@[i]@ != key@,
        },
{
    let mut i: usize = 0;
    while i < keys.len()
        invariant
            i <= keys@.len(),
            forall|j: int| 0 <= j < i ==> keys@[j]@ != key@,
        decreases keys@.len() - i,
    {
        if same_key(&keys[i], key) {
            proof {
                assert(first_position(keys@, *key, i as int));
                let chosen = position_of(keys@, *key);
                assert(first_position(keys@, *key, chosen));
                assert(chosen == i);
            }
            return Some(i);
        }
        i += 1;
    }
    None
}

} // verus!
