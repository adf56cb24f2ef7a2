//! The packed cell storage: `bv::BitVec`, seen through the sequence of
//! booleans that it holds.
//!
//! Nothing in this file is proved. Each contract restates what the `bv`
//! crate documents and implements, and the rest of the library is verified
//! against these contracts.

use vstd::prelude::*;
use bv::BitVec;

verus! {

/// A `bv::BitVec` over `usize` blocks.
///
/// `BitVec` is generic over a block trait of its crate, which the verifier
/// cannot be told about, so the vector sits behind this opaque struct. The
/// verifier sees none of its contents; everything known of a value goes
/// through [`bits_of`].
#[verifier::external_body]
pub struct PackedBits {
    inner: BitVec<usize>,
}

/// The bits that a packed vector holds, in position order.
pub uninterp spec fn bits_of(v: PackedBits) -> Seq<bool>;

/// `BitVec::new_fill`: a vector of `len` bits, each equal to `value`.
///
/// `bv` rounds `len` up to whole `usize` blocks by adding the block width
/// minus one, so `len` has to leave that much room below the largest word.
#[verifier::external_body]
pub(crate) fn filled(value: bool, len: u64) -> (v: PackedBits)
    requires
        len <= usize::MAX - 63,
    ensures
        bits_of(v) == Seq::new(len as nat, |i: int| value),
{
    PackedBits { inner: BitVec::new_fill(value, len) }
}

/// `BitVec::get`: the bit at `position`. `bv` panics on a position past the
/// end, which the precondition rules out.
#[verifier::external_body]
pub(crate) fn bit_at(v: &PackedBits, position: u64) -> (bit: bool)
    requires
        position < bits_of(*v).len(),
    ensures
        bit == bits_of(*v)[position as int],
{
    v.inner.get(position)
}

/// `BitVec::set`: overwrites the bit at `position` and leaves every other
/// bit and the length as they were. `bv` panics on a position past the end
/// and on nothing else; the precondition rules that out, so the call always
/// returns.
#[verifier::external_body]
pub(crate) fn put_bit(v: &mut PackedBits, position: u64, value: bool)
    requires
        position < bits_of(*old(v)).len(),
    ensures
        bits_of(*final(v)) == bits_of(*old(v)).update(position as int, value),
    no_unwind
{
    v.inner.set(position, value)
}

} // verus!
