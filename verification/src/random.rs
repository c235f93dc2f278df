//! The one randomness source of the library.
//!
//! Light jitter is deliberately nondeterministic across frames: the
//! denoiser relies on temporal blending of differently jittered frames,
//! not on per-frame determinism.  Everything downstream of the draw is
//! verified for every value the draw can take.

use vstd::prelude::*;

use rand::Rng;

use crate::scalar::MICRO;

verus! {

/// Relies on rand's `Rng::random_range` over an inclusive integer
/// range: the draw is a member of the requested range, and the range
/// `-MICRO..=MICRO` is never empty, so the call does not panic.
#[verifier::external_body]
pub(crate) fn draw_jitter_unit() -> (r: i64)
    ensures
        -MICRO <= r <= MICRO,
{
    rand::rng().random_range(-MICRO..=MICRO)
}

} // verus!
