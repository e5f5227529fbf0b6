use bitvec::vec::BitVec;
use vstd::prelude::*;

verus! {

/// The occupancy mask of a pattern: one bit per cell of its bounding box,
/// row by row, kept in a `bitvec::vec::BitVec`.
#[verifier::external_body]
pub struct Mask {
    bits: BitVec,
}

/// The bits that a mask holds, first pushed first.
pub uninterp spec fn mask_bits(m: Mask) -> Seq<bool>;

/// The greatest number of bits a bit vector takes: an eighth of the range
/// of `usize`.
pub open spec fn max_bits() -> int {
    (usize::MAX as int) / 8
}

/// `BitVec::with_capacity`: a bit vector without bits, with room for
/// `capacity` of them. The call panics on a capacity over `max_bits()`, so
/// that is left out.
#[verifier::external_body]
pub(crate) fn mask_with_capacity(capacity: usize) -> (m: Mask)
    requires
        capacity <= max_bits(),
    ensures
        mask_bits(m) == Seq::<bool>::empty(),
{
    Mask { bits: BitVec::with_capacity(capacity) }
}

/// `BitVec::len`: the number of bits held.
#[verifier::external_body]
pub(crate) fn mask_len(m: &Mask) -> (n: usize)
    ensures
        n == mask_bits(*m).len(),
{
    m.bits.len()
}

/// `BitVec::push`: appends one bit at the end. The call panics when the
/// vector already holds `max_bits()` bits, so that is left out.
#[verifier::external_body]
pub(crate) fn mask_push(m: &mut Mask, bit: bool)
    requires
        mask_bits(*old(m)).len() < max_bits(),
    ensures
        mask_bits(*final(m)) == mask_bits(*old(m)).push(bit),
{
    m.bits.push(bit)
}

/// Indexing of a bit vector by `usize`: the bit at `i`. The call panics
/// out of range, so that is left out.
#[verifier::external_body]
pub(crate) fn mask_get(m: &Mask, i: usize) -> (bit: bool)
    requires
        i < mask_bits(*m).len(),
    ensures
        bit == mask_bits(*m)[i as int],
{
    m.bits[i]
}

} // verus!
