use vstd::prelude::*;
use zeroize::Zeroize;

verus! {

/// `Zeroize::zeroize` on a `String` (zeroize crate): overwrites the bytes with
/// zeros and clears the string, so afterwards it is empty.
#[verifier::external_body]
pub(crate) fn wipe_string(s: &mut String)
    ensures
        final(s)@ == Seq::<char>::empty(),
{
    s.zeroize();
}

/// `Zeroize::zeroize` on a `Vec<u8>` (zeroize crate): zeroes the elements and
/// the spare capacity, then clears the vector, so afterwards it is empty.
#[verifier::external_body]
pub(crate) fn wipe_bytes(v: &mut Vec<u8>)
    ensures
        final(v)@ == Seq::<u8>::empty(),
{
    v.zeroize();
}

/// `Zeroize::zeroize` on a `[u8; 32]` (zeroize crate): every byte becomes zero.
#[verifier::external_body]
pub(crate) fn wipe_key_bytes(b: &mut [u8; 32])
    ensures
        final(b)@ == Seq::new(32, |i: int| 0u8),
{
    b.zeroize();
}

} // verus!
