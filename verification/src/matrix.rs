//! Fixed-point 4x4 matrices.
//!
//! A `Mat4Fx` carries sixteen micro-unit elements in column-major order,
//! exactly as the host's linear-algebra library lays its matrices out.  A
//! product of two such matrices is kept un-rescaled as a `RawMat` whose
//! elements are in micro-squared units: multiplication then stays exact
//! integer arithmetic, and comparisons against thresholds simply use
//! thresholds expressed in the same units.

use vstd::prelude::*;

use crate::scalar::{abs_val, lemma_square_bound, scalar_ok, MICRO, SCALAR_LIMIT};

verus! {

/// A 4x4 matrix in micro-units, column-major: element `(row r, column c)`
/// lives at index `c * 4 + r`.
#[derive(Clone, PartialEq, Eq, Debug)]
pub struct Mat4Fx {
    pub e: Vec<i64>,
}

impl Mat4Fx {
    /// Sixteen elements, each within the scalar bound.
    pub open spec fn wf(self) -> bool {
        self.e.len() == 16 && forall|i: int| 0 <= i < 16 ==> scalar_ok(#[trigger] self.e[i])
    }

    /// The element at `(row, column)`.
    pub open spec fn at(self, r: int, c: int) -> int {
        self.e[c * 4 + r] as int
    }

    /// The identity matrix (ones in micro-units on the diagonal).
    pub fn identity() -> (m: Mat4Fx)
        ensures
            m.wf(),
            forall|i: int| 0 <= i < 16 ==> m.e[i] == (if i % 5 == 0 { MICRO as int } else { 0 }),
    {
        let mut e: Vec<i64> = Vec::new();
        let mut i: usize = 0;
        while i < 16
            invariant
                i <= 16,
                e.len() == i,
                forall|j: int| 0 <= j < i ==> e[j] == (if j % 5 == 0 { MICRO as int } else { 0 }),
            decreases 16 - i,
        {
            if i % 5 == 0 {
                e.push(MICRO);
            } else {
                e.push(0);
            }
            i = i + 1;
        }
        Mat4Fx { e }
    }
}

/// Magnitude bound of one raw product element: a sum of four products of
/// scalars bounded by `SCALAR_LIMIT`.
pub open spec fn raw_limit() -> int {
    4 * SCALAR_LIMIT * SCALAR_LIMIT
}

/// A 4x4 matrix in micro-squared units, column-major, as produced by
/// multiplying two `Mat4Fx` without rescaling.
#[derive(Clone, PartialEq, Eq, Debug)]
pub struct RawMat {
    pub e: Vec<i128>,
}

impl RawMat {
    /// Sixteen elements, each within the raw product bound.
    pub open spec fn wf(self) -> bool {
        self.e.len() == 16 && forall|i: int| 0 <= i < 16 ==> -raw_limit() <= #[trigger] self.e[i]
            <= raw_limit()
    }

    /// The identity in micro-squared units.
    pub fn identity() -> (m: RawMat)
        ensures
            m.wf(),
            forall|i: int| 0 <= i < 16 ==> m.e[i] == (
            if i % 5 == 0 {
                (MICRO * MICRO) as int
            } else {
                0
            }),
    {
        let one: i128 = MICRO as i128 * MICRO as i128;
        let mut e: Vec<i128> = Vec::new();
        let mut i: usize = 0;
        while i < 16
            invariant
                i <= 16,
                e.len() == i,
                one == (MICRO * MICRO) as int,
                forall|j: int| 0 <= j < i ==> e[j] == (
                if j % 5 == 0 {
                    (MICRO * MICRO) as int
                } else {
                    0
                }),
            decreases 16 - i,
        {
            if i % 5 == 0 {
                e.push(one);
            } else {
                e.push(0);
            }
            i = i + 1;
        }
        RawMat { e }
    }
}

/// The exact value of element `(r, c)` of the product `a * b` in
/// micro-squared units: the usual dot product of row `r` of `a` with
/// column `c` of `b`.
pub open spec fn product_entry(a: Mat4Fx, b: Mat4Fx, r: int, c: int) -> int {
    a.at(r, 0) * b.at(0, c) + a.at(r, 1) * b.at(1, c) + a.at(r, 2) * b.at(2, c) + a.at(r, 3)
        * b.at(3, c)
}

/// `m` is the exact un-rescaled product of `a` and `b`.
pub open spec fn is_product(m: RawMat, a: Mat4Fx, b: Mat4Fx) -> bool {
    m.e.len() == 16 && forall|r: int, c: int|
        0 <= r < 4 && 0 <= c < 4 ==> #[trigger] m.e[c * 4 + r] == product_entry(a, b, r, c)
}

/// The product of two bounded values is bounded by the product of the
/// bounds.
proof fn lemma_mul_bound(v: int, w: int, m: int)
    requires
        0 <= m,
        -m <= v <= m,
        -m <= w <= m,
    ensures
        -(m * m) <= v * w <= m * m,
{
    assert(-(m * m) <= v * w <= m * m) by (nonlinear_arith)
        requires
            0 <= m,
            -m <= v <= m,
            -m <= w <= m,
    ;
}

/// Multiplies two micro-unit matrices into a raw micro-squared matrix,
/// exactly.
pub fn mat_mul(a: &Mat4Fx, b: &Mat4Fx) -> (m: RawMat)
    requires
        a.wf(),
        b.wf(),
    ensures
        m.wf(),
        is_product(m, *a, *b),
{
    let mut e: Vec<i128> = Vec::new();
    let mut i: usize = 0;
    while i < 16
        invariant
            i <= 16,
            e.len() == i,
            a.wf(),
            b.wf(),
            forall|j: int| 0 <= j < i ==> -raw_limit() <= #[trigger] e[j] <= raw_limit(),
            forall|j: int| 0 <= j < i ==> #[trigger] e[j] == product_entry(*a, *b, j % 4, j / 4),
        decreases 16 - i,
    {
        let r: usize = i % 4;
        let c: usize = i / 4;
        let a0: i64 = a.e[0 * 4 + r];
        let a1: i64 = a.e[1 * 4 + r];
        let a2: i64 = a.e[2 * 4 + r];
        let a3: i64 = a.e[3 * 4 + r];
        let b0: i64 = b.e[c * 4 + 0];
        let b1: i64 = b.e[c * 4 + 1];
        let b2: i64 = b.e[c * 4 + 2];
        let b3: i64 = b.e[c * 4 + 3];
        proof {
            lemma_mul_bound(a0 as int, b0 as int, SCALAR_LIMIT as int);
            lemma_mul_bound(a1 as int, b1 as int, SCALAR_LIMIT as int);
            lemma_mul_bound(a2 as int, b2 as int, SCALAR_LIMIT as int);
            lemma_mul_bound(a3 as int, b3 as int, SCALAR_LIMIT as int);
        }
        let p0: i128 = a0 as i128 * b0 as i128;
        let p1: i128 = a1 as i128 * b1 as i128;
        let p2: i128 = a2 as i128 * b2 as i128;
        let p3: i128 = a3 as i128 * b3 as i128;
        e.push(p0 + p1 + p2 + p3);
        i = i + 1;
    }
    RawMat { e }
}

/// Absolute difference of the elements at index `i` of two raw matrices.
pub open spec fn diff_at(p: Seq<i128>, q: Seq<i128>, i: int) -> int {
    abs_val(p[i] - q[i])
}

/// Largest element-wise absolute difference among the first `n` elements.
pub open spec fn max_diff_upto(p: Seq<i128>, q: Seq<i128>, n: int) -> int
    decreases n,
{
    if n <= 0 {
        0
    } else {
        let rest = max_diff_upto(p, q, n - 1);
        if diff_at(p, q, n - 1) > rest {
            diff_at(p, q, n - 1)
        } else {
            rest
        }
    }
}

/// Largest element-wise absolute difference of two raw matrices.
pub fn max_abs_diff(p: &RawMat, q: &RawMat) -> (r: i128)
    requires
        p.wf(),
        q.wf(),
    ensures
        r == max_diff_upto(p.e@, q.e@, 16),
        r >= 0,
{
    let mut m: i128 = 0;
    let mut i: usize = 0;
    while i < 16
        invariant
            i <= 16,
            p.wf(),
            q.wf(),
            m == max_diff_upto(p.e@, q.e@, i as int),
            m >= 0,
        decreases 16 - i,
    {
        let d: i128 = if p.e[i] >= q.e[i] {
            p.e[i] - q.e[i]
        } else {
            q.e[i] - p.e[i]
        };
        if d > m {
            m = d;
        }
        i = i + 1;
    }
    m
}

} // verus!
