//! The process random source, behind one trusted call, and the small
//! derived draws the library needs: a jitter draw in thousandths and a
//! one-byte name suffix. Nothing is assumed of the drawn values beyond
//! their type; every bound below is proved on the arithmetic that derives
//! them.

use vstd::prelude::*;

verus! {

/// Relies on `rand::random`: one draw from the thread-local generator.
/// Nothing can be promised of a random value.
#[verifier::external_body]
fn random_u32() -> u32 {
    rand::random::<u32>()
}

/// A jitter draw in thousandths, anywhere in `0 ..= 2000`: it stands for
/// a uniform pick from the interval from minus one to plus one, as the
/// backoff policy reads it.
pub fn random_unit_draw() -> (d: u64)
    ensures
        d <= 2000,
{
    let r = random_u32();
    (r % 2001) as u64
}

/// A small random name suffix: the low byte of one draw. Suffixes are not
/// unique; collisions are acceptable.
pub fn random_name_suffix() -> u8 {
    (random_u32() % 256) as u8
}

/// A wide random name suffix: one full draw.
pub fn random_wide_suffix() -> u32 {
    random_u32()
}

} // verus!
