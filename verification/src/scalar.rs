//! Fixed-point scalars and small vectors.
//!
//! All continuous quantities of the pipeline (positions, colors,
//! intensities, matrix elements) are carried as `i64` micro-units: the
//! integer `1_000_000` stands for the real value `1.0`.  Values are kept
//! inside `SCALAR_LIMIT` so that every product of two scalars, and every
//! short sum of such products, fits in `i128` with room to spare.

use vstd::prelude::*;

verus! {

/// One whole unit in micro fixed-point representation.
pub const MICRO: i64 = 1_000_000;

/// Magnitude bound kept by every well-formed scalar of the library
/// (about 1.1e12 micro-units, i.e. 1.1e6 whole units).
pub const SCALAR_LIMIT: i64 = 0x100_0000_0000;

/// A scalar is well formed when its magnitude stays within `SCALAR_LIMIT`.
pub open spec fn scalar_ok(v: i64) -> bool {
    -SCALAR_LIMIT <= v <= SCALAR_LIMIT
}

/// Magnitude of an integer, as a mathematical value.
pub open spec fn abs_val(v: int) -> int {
    if v >= 0 { v } else { -v }
}

/// A 2D point or extent in micro-units.
#[derive(Clone, Copy, PartialEq, Eq, Structural, Debug)]
pub struct Fx2 {
    pub x: i64,
    pub y: i64,
}

impl Fx2 {
    /// Both coordinates are within the scalar bound.
    pub open spec fn wf(self) -> bool {
        scalar_ok(self.x) && scalar_ok(self.y)
    }
}

/// A 3D point in micro-units.
#[derive(Clone, Copy, PartialEq, Eq, Structural, Debug)]
pub struct Fx3 {
    pub x: i64,
    pub y: i64,
    pub z: i64,
}

impl Fx3 {
    /// All coordinates are within the scalar bound.
    pub open spec fn wf(self) -> bool {
        scalar_ok(self.x) && scalar_ok(self.y) && scalar_ok(self.z)
    }

    /// The first two coordinates, as a 2D point.
    pub fn truncate(&self) -> (r: Fx2)
        ensures
            r.x == self.x,
            r.y == self.y,
    {
        Fx2 { x: self.x, y: self.y }
    }
}

/// Absolute difference of two bounded scalars.
pub fn abs_diff(a: i64, b: i64) -> (r: i64)
    requires
        scalar_ok(a),
        scalar_ok(b),
    ensures
        r == abs_val(a - b),
        0 <= r <= 2 * SCALAR_LIMIT,
{
    if a >= b {
        a - b
    } else {
        b - a
    }
}

/// Squared Euclidean distance of two 3D points, exact in `i128`.
pub open spec fn dist_sq(a: Fx3, b: Fx3) -> int {
    (a.x - b.x) * (a.x - b.x) + (a.y - b.y) * (a.y - b.y) + (a.z - b.z) * (a.z - b.z)
}

/// The square of a value bounded by `m` is bounded by `m * m`.
pub proof fn lemma_square_bound(v: int, m: int)
    requires
        0 <= m,
        -m <= v <= m,
    ensures
        0 <= v * v <= m * m,
{
    assert(0 <= v * v <= m * m) by (nonlinear_arith)
        requires
            0 <= m,
            -m <= v <= m,
    ;
}

/// A product of nonnegative values is bounded by the product of their
/// bounds.
pub proof fn lemma_mul_le(a: int, b: int, bound_a: int, bound_b: int)
    requires
        0 <= a <= bound_a,
        0 <= b <= bound_b,
    ensures
        0 <= a * b <= bound_a * bound_b,
{
    assert(0 <= a * b <= bound_a * bound_b) by (nonlinear_arith)
        requires
            0 <= a <= bound_a,
            0 <= b <= bound_b,
    ;
}

/// A nonnegative value at most `m * bound` divides by `m` to at most
/// `bound`.
pub proof fn lemma_div_bound(num: int, m: int, bound: int)
    requires
        1 <= m,
        0 <= bound,
        0 <= num <= m * bound,
    ensures
        0 <= num / m <= bound,
{
    vstd::arithmetic::div_mod::lemma_div_is_ordered(num, m * bound, m);
    vstd::arithmetic::div_mod::lemma_div_multiples_vanish(bound, m);
    vstd::arithmetic::div_mod::lemma_div_pos_is_pos(num, m);
}

/// Computes the squared distance between two bounded 3D points.
pub fn distance_squared(a: &Fx3, b: &Fx3) -> (r: i128)
    requires
        a.wf(),
        b.wf(),
    ensures
        r == dist_sq(*a, *b),
        r >= 0,
{
    let dx: i128 = a.x as i128 - b.x as i128;
    let dy: i128 = a.y as i128 - b.y as i128;
    let dz: i128 = a.z as i128 - b.z as i128;
    proof {
        lemma_square_bound(dx as int, 2 * SCALAR_LIMIT as int);
        lemma_square_bound(dy as int, 2 * SCALAR_LIMIT as int);
        lemma_square_bound(dz as int, 2 * SCALAR_LIMIT as int);
    }
    dx * dx + dy * dy + dz * dz
}

} // verus!
