//! The cyclic frame counter.
//!
//! Temporal accumulation rotates through `probe_size * probe_size`
//! reservoir slots, one per frame.  The counter wraps at the end of the
//! cycle, and a temporal reset forces it back to slot zero so that the
//! cold-start accumulation begins deterministically.

use vstd::prelude::*;

verus! {

/// Largest supported probe cell size; keeps `probe_size * probe_size`
/// well inside `u32`.
pub const MAX_PROBE_SIZE: u32 = 0xFFFF;

/// Number of reservoir slots in one temporal cycle.
pub open spec fn cycle_len(probe_size: u32) -> int {
    probe_size * probe_size
}

/// The frame counter after one update: forced to zero by a temporal
/// reset, otherwise incremented and wrapped at the cycle length.
pub open spec fn next_counter_spec(counter: u32, probe_size: u32, reset: bool) -> int {
    if reset {
        0
    } else {
        (counter + 1) % cycle_len(probe_size)
    }
}

/// One positive factor bounds products from below by one.
pub proof fn lemma_cycle_len_positive(probe_size: u32)
    requires
        1 <= probe_size,
    ensures
        1 <= cycle_len(probe_size),
        cycle_len(probe_size) == probe_size * probe_size,
{
    crate::scalar::lemma_mul_le(1, 1, probe_size as int, probe_size as int);
}

/// The square of a value at most `MAX_PROBE_SIZE` stays below `u32::MAX`.
pub proof fn lemma_cycle_len_fits(probe_size: u32)
    requires
        probe_size <= MAX_PROBE_SIZE,
    ensures
        cycle_len(probe_size) <= 0xFFFF_FFFF,
{
    crate::scalar::lemma_mul_le(
        probe_size as int,
        probe_size as int,
        MAX_PROBE_SIZE as int,
        MAX_PROBE_SIZE as int,
    );
}

/// Advances the frame counter by one frame.
pub fn next_frame_counter(counter: u32, probe_size: u32, reset: bool) -> (r: u32)
    requires
        1 <= probe_size <= MAX_PROBE_SIZE,
        counter < cycle_len(probe_size),
    ensures
        r == next_counter_spec(counter, probe_size, reset),
        0 <= r < cycle_len(probe_size),
{
    proof {
        lemma_cycle_len_positive(probe_size);
        lemma_cycle_len_fits(probe_size);
    }
    if reset {
        0
    } else {
        let cycle: u32 = probe_size * probe_size;
        (counter + 1) % cycle
    }
}

/// After every update the counter lies inside the cycle, equals zero
/// after a reset, and equals the wrapped increment otherwise.
pub proof fn lemma_frame_counter_cycles(counter: u32, probe_size: u32, reset: bool)
    requires
        1 <= probe_size <= MAX_PROBE_SIZE,
        counter < cycle_len(probe_size),
    ensures
        0 <= next_counter_spec(counter, probe_size, reset) < cycle_len(probe_size),
        reset ==> next_counter_spec(counter, probe_size, reset) == 0,
        !reset ==> next_counter_spec(counter, probe_size, reset) == (counter + 1) % (
        probe_size * probe_size),
{
    lemma_cycle_len_positive(probe_size);
}

} // verus!
