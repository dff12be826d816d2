//! A small deterministic random-number generator.
//!
//! The kernel takes its randomness (bounce nudges, jitter angles) from a
//! caller-supplied xorshift state, so every run is reproducible from its
//! seed.

use crate::fixed::SCALE;
use crate::fixed::tdiv;
use vstd::prelude::*;

verus! {

/// The largest raw draw: the low 24 bits of the generator state.
pub const RAND_MASK: u32 = 0x00FF_FFFF;

/// One xorshift step, as a mathematical function of the state.
pub open spec fn hash_u32_spec(x: u32) -> u32 {
    let a = x ^ (x << 13u32);
    let b = a ^ (a >> 17u32);
    b ^ (b << 5u32)
}

/// The fixed-point value in [0, SCALE] that a generator state encodes.
pub open spec fn frand01_val(s: u32) -> int {
    tdiv((s & RAND_MASK) * (SCALE as int), RAND_MASK as int)
}

/// Advance a 32-bit xorshift state by one step.
pub fn hash_u32(x: u32) -> (r: u32)
    ensures
        r == hash_u32_spec(x),
{
    let a: u32 = x ^ (x << 13u32);
    let b: u32 = a ^ (a >> 17u32);
    b ^ (b << 5u32)
}

/// Draw a fixed-point value in [0, SCALE] (that is, in [0.0, 1.0]),
/// advancing the generator state.
pub fn frand01(state: &mut u32) -> (r: i64)
    ensures
        *final(state) == hash_u32_spec(*old(state)),
        r as int == frand01_val(*final(state)),
        0 <= r <= SCALE,
{
    let next: u32 = hash_u32(*state);
    *state = next;
    proof {
        assert(next & 0x00FF_FFFFu32 <= 0x00FF_FFFFu32) by (bit_vector);
    }
    let masked: u32 = next & RAND_MASK;
    let num: i64 = (masked as i64) * (SCALE as i64);
    let r: i64 = num / (RAND_MASK as i64);
    r
}

} // verus!
