//! Truth assignments: one bit per atom position, packed in a `bit_vec::BitVec`.

use bit_vec::BitVec;
use vstd::prelude::*;

verus! {

/// `bit_vec::BitVec`, a vector of bits packed into storage blocks of type `B`.
/// The representation stays hidden: contracts speak of a bit vector only
/// through [`bits`].
#[verifier::external_type_specification]
#[verifier::external_body]
#[verifier::reject_recursive_types(B)]
pub struct ExBitVec<B>(BitVec<B>);

/// The bits that a bit vector holds, in index order. The length of this
/// sequence is the number of bits in the vector (what `BitVec::len` reports),
/// and its entry `i` is the bit stored at index `i`.
pub uninterp spec fn bits(valuation: BitVec<u32>) -> Seq<bool>;

/// `BitVec::get`. Trusted to return the bit stored at index `i` when `i` is
/// below the vector's length, and `None` for every other index; it returns
/// for every index and leaves the vector as it was.
#[verifier::external_body]
pub(crate) fn bit_at(valuation: &BitVec<u32>, i: usize) -> (bit: Option<bool>)
    ensures
        bit == (if i < bits(*valuation).len() {
            Some(bits(*valuation)[i as int])
        } else {
            None
        }),
{
    valuation.get(i)
}

} // verus!
