use vstd::prelude::*;
use aligned_vec::AVec;
use aligned_vec::ConstAlign;

verus! {

/// The alignment, in bytes, of every pixel buffer: two 64-byte cache lines, so
/// that 64-byte vector loads and stores never straddle a boundary.
pub const BUFFER_ALIGN: usize = 128;

/// A byte buffer aligned to `BUFFER_ALIGN` bytes, backed by
/// `aligned_vec::AVec<u8, ConstAlign<128>>`.
///
/// The vector lives in a private field of this opaque struct; what it holds is
/// given by `buffer_bytes`, and every access goes through the trusted functions
/// of this module.
#[verifier::external_body]
pub struct PixelBytes {
    data: AVec<u8, ConstAlign<128>>,
}

/// The bytes that a `PixelBytes` holds, in order.
pub uninterp spec fn buffer_bytes(b: PixelBytes) -> Seq<u8>;

/// Calls `AVec::__from_elem` (what `avec![[BUFFER_ALIGN]| 0; len]` expands
/// to): an aligned vector of `len` zero bytes.
#[verifier::external_body]
pub(crate) fn buffer_zeroed(len: usize) -> (b: PixelBytes)
    ensures
        buffer_bytes(b) == Seq::new(len as nat, |i: int| 0u8),
{
    PixelBytes { data: AVec::__from_elem(BUFFER_ALIGN, 0u8, len) }
}

/// Calls `AVec::from_slice`: an aligned vector holding a copy of `s`.
#[verifier::external_body]
pub(crate) fn buffer_from_slice(s: &[u8]) -> (b: PixelBytes)
    ensures
        buffer_bytes(b) == s@,
{
    PixelBytes { data: AVec::from_slice(BUFFER_ALIGN, s) }
}

/// Calls `AVec::as_slice`: the bytes of the vector as a slice.
#[verifier::external_body]
pub(crate) fn buffer_as_slice(b: &PixelBytes) -> (s: &[u8])
    ensures
        s@ == buffer_bytes(*b),
{
    b.data.as_slice()
}

/// Calls `AVec::as_mut_slice`: the bytes of the vector as a mutable slice; what
/// the slice holds when the borrow ends is what the vector holds (a slice keeps
/// its length). It builds the
/// slice from the vector's pointer and length and cannot panic.
#[verifier::external_body]
pub(crate) fn buffer_as_mut_slice(b: &mut PixelBytes) -> (s: &mut [u8])
    ensures
        s@ == buffer_bytes(*old(b)),
        final(s)@.len() == s@.len(),
        buffer_bytes(*final(b)) == final(s)@,
    no_unwind
{
    b.data.as_mut_slice()
}

/// Calls `AVec::alignment`: the alignment of the vector's allocation, whose
/// first byte lies at an address that is a multiple of it. For
/// `ConstAlign<128>` the crate returns the constant itself.
#[verifier::external_body]
pub(crate) fn buffer_alignment(b: &PixelBytes) -> (a: usize)
    ensures
        a == BUFFER_ALIGN,
{
    b.data.alignment()
}

} // verus!
