//! Byte strings of a fixed size.
use vstd::prelude::*;

verus! {

/// The bytes of `bytes` as an array of `N`, if there are exactly `N`.
pub fn to_array<const N: usize>(bytes: &Vec<u8>) -> (out: Option<[u8; N]>)
    ensures
        out is Some <==> bytes@.len() == N,
        out matches Some(a) ==> a@ == bytes@,
{
    if bytes.len() != N {
        return None;
    }
    let mut a: [u8; N] = [0u8; N];
    let mut i: usize = 0;
    while i < N
        invariant
            bytes@.len() == N,
            i <= N,
            forall|j: int| 0 <= j < i ==> a@[j] == bytes@[j],
        decreases N - i,
    {
        a[i] = bytes[i];
        i += 1;
    }
    Some(a)
}

} // verus!
