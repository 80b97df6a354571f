//! Fixed-size arrays out of byte slices.
use vstd::prelude::*;

verus! {

/// The `N` bytes of `bytes` that start at `from`.
pub fn array_at<const N: usize>(bytes: &[u8], from: usize) -> (array: [u8; N])
    requires
        from + N <= bytes@.len(),
    ensures
        array@ == bytes@.subrange(from as int, from + N),
{
    let len: usize = bytes.len();
    let mut array: [u8; N] = vstd::array::array_fill_for_copy_types(0u8);
    let mut i: usize = 0;
    while i < N
        invariant
            i <= N,
            from + N <= len,
            len == bytes@.len(),
            forall|j: int| 0 <= j < i ==> array@[j] == bytes@[from + j],
        decreases N - i,
    {
        array[i] = bytes[from + i];
        i += 1;
    }
    assert(array@ =~= bytes@.subrange(from as int, from + N));
    array
}

/// The 32 bytes of `val`, if it has that length.
pub fn to_slice_32(val: &[u8]) -> (array: Option<[u8; 32]>)
    ensures
        array is Some <==> val@.len() == 32,
        array matches Some(a) ==> a@ == val@,
{
    if val.len() == 32 {
        let array: [u8; 32] = array_at(val, 0);
        assert(array@ =~= val@);
        Some(array)
    } else {
        None
    }
}

} // verus!
