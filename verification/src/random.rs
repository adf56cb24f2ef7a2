//! The random source: `rand`'s thread-local generator.
//!
//! Nothing in this file is proved. A draw depends on the state of the
//! generator, so its contract says only what holds of every draw: the range.

use vstd::prelude::*;
use rand::rngs::ThreadRng;
use rand::Rng;

verus! {

/// `rand::rngs::ThreadRng`, opaque to the verifier.
#[verifier::external_type_specification]
#[verifier::external_body]
pub struct ExThreadRng(ThreadRng);

/// `Rng::gen_range` over `0..100`: one draw, uniform over the hundred values
/// of the range. Only the range is stated; two draws need not agree.
#[verifier::external_body]
pub(crate) fn draw_percent(rng: &mut ThreadRng) -> (draw: u8)
    ensures
        draw < 100,
{
    rng.gen_range(0..100)
}

} // verus!
