//! Light attenuation.
//!
//! A point light's contribution at distance `d` falls off as the
//! reciprocal of `constant + linear * d + quadratic * d^2`.  The probe
//! kernel evaluates this curve on the GPU; this module carries the same
//! curve in fixed point, and proves that it never brightens with
//! distance — the monotonic falloff the composited image exhibits
//! around an unoccluded light.

use vstd::prelude::*;

use crate::scalar::{lemma_div_bound, lemma_mul_le, MICRO, SCALAR_LIMIT};
use crate::scene::Falloff;

verus! {

/// The attenuation denominator at distance `d` (micro-units): the
/// falloff curve evaluated with every product rescaled to micro-units,
/// rounding down.
pub open spec fn attenuation_den(f: Falloff, d: int) -> int {
    f.constant + (f.linear * d) / (MICRO as int) + (f.quadratic * ((d * d) / (MICRO as int)))
        / (MICRO as int)
}

/// The attenuation at distance `d` in micro-units: one over the curve,
/// rounding down.
pub open spec fn attenuation_spec(f: Falloff, d: int) -> int {
    (MICRO * MICRO) as int / attenuation_den(f, d)
}

/// Evaluates the attenuation curve at a nonnegative distance.
pub fn attenuation(f: &Falloff, d: i64) -> (r: i64)
    requires
        f.wf(),
        f.constant >= 1,
        0 <= d <= SCALAR_LIMIT,
    ensures
        r == attenuation_spec(*f, d as int),
        0 <= r <= MICRO * MICRO,
{
    proof {
        lemma_mul_le(f.linear as int, d as int, SCALAR_LIMIT as int, SCALAR_LIMIT as int);
        lemma_mul_le(d as int, d as int, SCALAR_LIMIT as int, SCALAR_LIMIT as int);
    }
    let lterm: u128 = (f.linear as u128 * d as u128) / (MICRO as u128);
    let sq: u128 = (d as u128 * d as u128) / (MICRO as u128);
    proof {
        lemma_div_bound(
            f.linear as int * d as int,
            MICRO as int,
            SCALAR_LIMIT as int * SCALAR_LIMIT as int,
        );
        lemma_div_bound(
            d as int * d as int,
            MICRO as int,
            SCALAR_LIMIT as int * SCALAR_LIMIT as int,
        );
        lemma_mul_le(
            f.quadratic as int,
            sq as int,
            SCALAR_LIMIT as int,
            SCALAR_LIMIT as int * SCALAR_LIMIT as int,
        );
    }
    let qterm: u128 = (f.quadratic as u128 * sq) / (MICRO as u128);
    proof {
        lemma_div_bound(
            f.quadratic as int * sq as int,
            MICRO as int,
            SCALAR_LIMIT as int * SCALAR_LIMIT as int * SCALAR_LIMIT as int,
        );
    }
    let den: u128 = f.constant as u128 + lterm + qterm;
    let one_sq: u128 = (MICRO as u128) * (MICRO as u128);
    let att: u128 = one_sq / den;
    proof {
        lemma_div_bound(one_sq as int, den as int, (MICRO * MICRO) as int);
    }
    att as i64
}

/// The denominator never shrinks as the distance grows.
proof fn lemma_den_monotone(f: Falloff, d1: int, d2: int)
    requires
        f.wf(),
        0 <= d1 <= d2,
    ensures
        attenuation_den(f, d1) <= attenuation_den(f, d2),
{
    vstd::arithmetic::mul::lemma_mul_inequality(d1, d2, f.linear as int);
    vstd::arithmetic::div_mod::lemma_div_is_ordered(
        f.linear as int * d1,
        f.linear as int * d2,
        MICRO as int,
    );
    assert(d1 * d1 <= d2 * d2) by (nonlinear_arith)
        requires
            0 <= d1 <= d2,
    ;
    vstd::arithmetic::div_mod::lemma_div_is_ordered(d1 * d1, d2 * d2, MICRO as int);
    vstd::arithmetic::mul::lemma_mul_inequality(
        (d1 * d1) / (MICRO as int),
        (d2 * d2) / (MICRO as int),
        f.quadratic as int,
    );
    vstd::arithmetic::div_mod::lemma_div_is_ordered(
        f.quadratic as int * ((d1 * d1) / (MICRO as int)),
        f.quadratic as int * ((d2 * d2) / (MICRO as int)),
        MICRO as int,
    );
}

/// The denominator is positive whenever the constant term is.
proof fn lemma_den_positive(f: Falloff, d: int)
    requires
        f.wf(),
        f.constant >= 1,
        0 <= d,
    ensures
        attenuation_den(f, d) >= 1,
{
    vstd::arithmetic::mul::lemma_mul_nonnegative(f.linear as int, d);
    vstd::arithmetic::div_mod::lemma_div_pos_is_pos(f.linear as int * d, MICRO as int);
    vstd::arithmetic::mul::lemma_mul_nonnegative(d, d);
    vstd::arithmetic::div_mod::lemma_div_pos_is_pos(d * d, MICRO as int);
    vstd::arithmetic::mul::lemma_mul_nonnegative(f.quadratic as int, (d * d) / (MICRO as int));
    vstd::arithmetic::div_mod::lemma_div_pos_is_pos(
        f.quadratic as int * ((d * d) / (MICRO as int)),
        MICRO as int,
    );
}

/// Attenuation is monotonically nonincreasing in distance: a point
/// farther from an unoccluded light is never brighter than a nearer
/// one.
pub proof fn lemma_attenuation_antitone(f: Falloff, d1: int, d2: int)
    requires
        f.wf(),
        f.constant >= 1,
        0 <= d1 <= d2,
    ensures
        attenuation_spec(f, d1) >= attenuation_spec(f, d2),
{
    lemma_den_positive(f, d1);
    lemma_den_positive(f, d2);
    lemma_den_monotone(f, d1, d2);
    vstd::arithmetic::div_mod::lemma_div_is_ordered_by_denominator(
        (MICRO * MICRO) as int,
        attenuation_den(f, d1),
        attenuation_den(f, d2),
    );
}

} // verus!
