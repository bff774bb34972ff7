//! Fixed-point scalars and 3D vectors.
//!
//! Every length, position and speed in this crate is an integer number of
//! hundredths of a world unit. The spec-level model of a vector is a triple
//! of unbounded integers; the executable carrier is `Vec3` with `i64` fields.

use vstd::prelude::*;

verus! {

/// Fixed-point steps per world unit.
pub const SCALE: i64 = 100;

/// Largest coordinate magnitude the simulation works with (1000 world units).
pub const COORD_LIMIT: i64 = 100_000;

/// `v` clamped to the closed interval `[lo, hi]`.
pub open spec fn clamped(v: int, lo: int, hi: int) -> int {
    if v < lo {
        lo
    } else if v > hi {
        hi
    } else {
        v
    }
}

/// Clamps `v` to `[lo, hi]`.
pub fn clamp_to(v: i64, lo: i64, hi: i64) -> (r: i64)
    requires
        lo <= hi,
    ensures
        r == clamped(v as int, lo as int, hi as int),
{
    if v < lo {
        lo
    } else if v > hi {
        hi
    } else {
        v
    }
}

/// Division rounding toward zero, the rounding of every fixed-point
/// scaling step in this crate.
pub open spec fn div_towards_zero(a: int, b: int) -> int {
    if a >= 0 {
        a / b
    } else {
        -((-a) / b)
    }
}

/// Divides rounding toward zero.
pub fn div_trunc(a: i64, b: i64) -> (r: i64)
    requires
        b > 0,
        a != i64::MIN,
    ensures
        r == div_towards_zero(a as int, b as int),
        a >= 0 ==> 0 <= r <= a,
        a < 0 ==> a <= r <= 0,
{
    if a >= 0 {
        let q: u64 = (a as u64) / (b as u64);
        proof {
            lemma_div_shrinks(a as int, b as int);
        }
        q as i64
    } else {
        let m: u64 = (-a) as u64;
        let q: u64 = m / (b as u64);
        proof {
            lemma_div_shrinks(m as int, b as int);
        }
        -(q as i64)
    }
}

/// For nonnegative `a` and positive `b`, `a / b` lies between 0 and `a`.
proof fn lemma_div_shrinks(a: int, b: int)
    requires
        a >= 0,
        b > 0,
    ensures
        0 <= a / b <= a,
{
    vstd::arithmetic::div_mod::lemma_div_is_ordered_by_denominator(a, 1, b);
    vstd::arithmetic::div_mod::lemma_div_basics(a);
    vstd::arithmetic::div_mod::lemma_div_pos_is_pos(a, b);
}

/// The square of a quotient rounded toward zero never exceeds the square of
/// the exact quotient: `(a / b)^2 * b^2 <= a^2`.
pub proof fn lemma_div_towards_zero_sq(a: int, b: int)
    requires
        b > 0,
    ensures
        div_towards_zero(a, b) * div_towards_zero(a, b) * (b * b) <= a * a,
{
    let m: int = if a >= 0 {
        a
    } else {
        -a
    };
    let q: int = m / b;
    lemma_div_shrinks(m, b);
    vstd::arithmetic::div_mod::lemma_fundamental_div_mod(m, b);
    vstd::arithmetic::div_mod::lemma_mod_bound(m, b);
    assert(q * b <= m);
    assert(q * q * (b * b) <= m * m) by (nonlinear_arith)
        requires
            0 <= q,
            0 < b,
            q * b <= m,
    ;
    assert(div_towards_zero(a, b) == q || div_towards_zero(a, b) == -q);
    assert(div_towards_zero(a, b) * div_towards_zero(a, b) == q * q) by (nonlinear_arith)
        requires
            div_towards_zero(a, b) == q || div_towards_zero(a, b) == -q,
    ;
    assert(m * m == a * a) by (nonlinear_arith)
        requires
            m == a || m == -a,
    ;
}

/// Bound on a product of bounded factors.
pub proof fn lemma_mul_box(a: int, b: int, m: int, n: int)
    by (nonlinear_arith)
    requires
        -m <= a <= m,
        -n <= b <= n,
        0 <= m,
        0 <= n,
    ensures
        -(m * n) <= a * b <= m * n,
{
}

/// `r` is the integer square root of `n`, rounded up.
pub open spec fn is_ceil_sqrt(n: int, r: int) -> bool {
    &&& 0 <= r
    &&& n <= r * r
    &&& (r == 0 || (r - 1) * (r - 1) < n)
}

/// The integer square root of `n`, rounded up.
pub open spec fn ceil_sqrt(n: int) -> int {
    choose|r: int| is_ceil_sqrt(n, r)
}

/// Two upward-rounded integer square roots of the same number are equal.
pub proof fn lemma_ceil_sqrt_unique(n: int, r1: int, r2: int)
    by (nonlinear_arith)
    requires
        is_ceil_sqrt(n, r1),
        is_ceil_sqrt(n, r2),
    ensures
        r1 == r2,
{
}

/// Largest argument `ceil_sqrt_i64` accepts.
pub const SQRT_INPUT_LIMIT: i64 = 4_000_000_000_000;

/// Computes the integer square root of `n`, rounded up.
pub fn ceil_sqrt_i64(n: i64) -> (r: i64)
    requires
        0 <= n <= SQRT_INPUT_LIMIT,
    ensures
        is_ceil_sqrt(n as int, r as int),
        r == ceil_sqrt(n as int),
        0 <= r <= 2_000_001,
{
    let mut f: i64 = 0;
    let mut next_sq: i64 = 1;
    while next_sq <= n
        invariant
            0 <= f <= 2_000_000,
            f <= n <= SQRT_INPUT_LIMIT,
            0 <= f * f <= n,
            next_sq == (f + 1) * (f + 1),
        decreases n - f,
    {
        f = f + 1;
        proof {
            assert(f <= 2_000_000) by (nonlinear_arith)
                requires
                    0 <= f,
                    f * f <= 4_000_000_000_000,
            ;
            assert(f <= n) by (nonlinear_arith)
                requires
                    1 <= f,
                    f * f <= n,
            ;
            assert(0 <= (f + 1) * (f + 1) <= 4_000_008_000_004) by (nonlinear_arith)
                requires
                    0 <= f <= 2_000_000,
            ;
        }
        next_sq = (f + 1) * (f + 1);
    }
    let r: i64 = if f * f == n {
        f
    } else {
        f + 1
    };
    proof {
        assert(is_ceil_sqrt(n as int, r as int)) by (nonlinear_arith)
            requires
                0 <= f,
                f * f <= n,
                n < (f + 1) * (f + 1),
                r == if f * f == n {
                    f as int
                } else {
                    f + 1
                },
        ;
        lemma_ceil_sqrt_unique(n as int, r as int, ceil_sqrt(n as int));
    }
    r
}

/// Dot product of two integer triples.
pub open spec fn dot3(a: (int, int, int), b: (int, int, int)) -> int {
    a.0 * b.0 + a.1 * b.1 + a.2 * b.2
}

/// Squared Euclidean length of an integer triple.
pub open spec fn norm_sq(a: (int, int, int)) -> int {
    dot3(a, a)
}

/// Componentwise difference of two integer triples.
pub open spec fn sub3(a: (int, int, int), b: (int, int, int)) -> (int, int, int) {
    (a.0 - b.0, a.1 - b.1, a.2 - b.2)
}

/// Componentwise sum of two integer triples.
pub open spec fn add3(a: (int, int, int), b: (int, int, int)) -> (int, int, int) {
    (a.0 + b.0, a.1 + b.1, a.2 + b.2)
}

/// Every component of `a` lies in `[-m, m]`.
pub open spec fn within(a: (int, int, int), m: int) -> bool {
    &&& -m <= a.0 <= m
    &&& -m <= a.1 <= m
    &&& -m <= a.2 <= m
}

/// A fixed-point 3D vector: each field counts hundredths of a world unit.
#[derive(Clone, Copy, PartialEq, Eq, Structural, Debug)]
pub struct Vec3 {
    pub x: i64,
    pub y: i64,
    pub z: i64,
}

impl View for Vec3 {
    type V = (int, int, int);

    open spec fn view(&self) -> (int, int, int) {
        (self.x as int, self.y as int, self.z as int)
    }
}

impl Vec3 {
    /// Builds a vector from its fixed-point components.
    pub fn new(x: i64, y: i64, z: i64) -> (r: Vec3)
        ensures
            r@ == (x as int, y as int, z as int),
    {
        Vec3 { x, y, z }
    }

    /// The zero vector.
    pub fn zero() -> (r: Vec3)
        ensures
            r@ == (0int, 0int, 0int),
    {
        Vec3 { x: 0, y: 0, z: 0 }
    }

    /// Componentwise sum.
    pub fn plus(&self, other: &Vec3) -> (r: Vec3)
        requires
            within(self@, 1_000_000_000),
            within(other@, 1_000_000_000),
        ensures
            r@ == add3(self@, other@),
    {
        Vec3 { x: self.x + other.x, y: self.y + other.y, z: self.z + other.z }
    }

    /// Componentwise difference.
    pub fn minus(&self, other: &Vec3) -> (r: Vec3)
        requires
            within(self@, 1_000_000_000),
            within(other@, 1_000_000_000),
        ensures
            r@ == sub3(self@, other@),
    {
        Vec3 { x: self.x - other.x, y: self.y - other.y, z: self.z - other.z }
    }

    /// Componentwise negation.
    pub fn negated(&self) -> (r: Vec3)
        requires
            within(self@, 1_000_000_000),
        ensures
            r@ == (-self@.0, -self@.1, -self@.2),
    {
        Vec3 { x: -self.x, y: -self.y, z: -self.z }
    }

    /// Dot product.
    pub fn dot(&self, other: &Vec3) -> (r: i64)
        requires
            within(self@, 1_000_000),
            within(other@, 1_000_000),
        ensures
            r == dot3(self@, other@),
    {
        proof {
            lemma_mul_box(self@.0, other@.0, 1_000_000, 1_000_000);
            lemma_mul_box(self@.1, other@.1, 1_000_000, 1_000_000);
            lemma_mul_box(self@.2, other@.2, 1_000_000, 1_000_000);
        }
        self.x * other.x + self.y * other.y + self.z * other.z
    }
}

/// `v` rescaled to length at most `len`: zero stays zero; otherwise each
/// component becomes `v_i * len / ceil_sqrt(|v|^2)`, rounded toward zero.
/// Rounding the root up and the quotients toward zero guarantees the result
/// never exceeds length `len`.
pub open spec fn scaled3(v: (int, int, int), len: int) -> (int, int, int) {
    if norm_sq(v) == 0 {
        (0int, 0int, 0int)
    } else {
        let d = ceil_sqrt(norm_sq(v));
        (
            div_towards_zero(v.0 * len, d),
            div_towards_zero(v.1 * len, d),
            div_towards_zero(v.2 * len, d),
        )
    }
}

/// If `a^2 <= m^2` then `a` lies in `[-m, m]`.
pub proof fn lemma_abs_le_of_sq(a: int, m: int)
    by (nonlinear_arith)
    requires
        a * a <= m * m,
        0 <= m,
    ensures
        -m <= a <= m,
{
}

/// Summing the three per-component division bounds shows the rescaled
/// vector is no longer than `len`.
proof fn lemma_scaled_norm_bound(
    v0: int,
    v1: int,
    v2: int,
    len: int,
    d: int,
    q0: int,
    q1: int,
    q2: int,
)
    requires
        d > 0,
        0 <= len,
        v0 * v0 + v1 * v1 + v2 * v2 <= d * d,
        q0 * q0 * (d * d) <= (v0 * len) * (v0 * len),
        q1 * q1 * (d * d) <= (v1 * len) * (v1 * len),
        q2 * q2 * (d * d) <= (v2 * len) * (v2 * len),
    ensures
        q0 * q0 + q1 * q1 + q2 * q2 <= len * len,
        q0 * q0 <= len * len,
        q1 * q1 <= len * len,
        q2 * q2 <= len * len,
{
    lemma_distribute3(q0 * q0, q1 * q1, q2 * q2, d * d);
    lemma_sq_of_mul(v0, len);
    lemma_sq_of_mul(v1, len);
    lemma_sq_of_mul(v2, len);
    lemma_distribute3(v0 * v0, v1 * v1, v2 * v2, len * len);
    lemma_sq_nonneg(len);
    lemma_mul_le_mono(v0 * v0 + v1 * v1 + v2 * v2, d * d, len * len);
    assert((q0 * q0 + q1 * q1 + q2 * q2) * (d * d) <= (len * len) * (d * d)) by {
        assert((d * d) * (len * len) == (len * len) * (d * d)) by (nonlinear_arith);
    }
    assert(d * d > 0) by (nonlinear_arith)
        requires
            d > 0,
    ;
    lemma_mul_cancel(q0 * q0 + q1 * q1 + q2 * q2, len * len, d * d);
    lemma_sq_nonneg(q0);
    lemma_sq_nonneg(q1);
    lemma_sq_nonneg(q2);
}

/// A square is never negative.
pub proof fn lemma_sq_nonneg(a: int)
    by (nonlinear_arith)
    ensures
        a * a >= 0,
{
}

/// Multiplying both sides of an inequality by a nonnegative factor.
pub proof fn lemma_mul_le_mono(a: int, b: int, c: int)
    by (nonlinear_arith)
    requires
        a <= b,
        0 <= c,
    ensures
        a * c <= b * c,
        c * a <= c * b,
{
}

/// A positive common factor can be cancelled from an inequality.
pub proof fn lemma_mul_cancel(a: int, b: int, c: int)
    by (nonlinear_arith)
    requires
        a * c <= b * c,
        c > 0,
    ensures
        a <= b,
{
}

/// Distributing a factor over a three-term sum.
pub proof fn lemma_distribute3(a: int, b: int, c: int, l: int)
    by (nonlinear_arith)
    ensures
        (a + b + c) * l == a * l + b * l + c * l,
        l * (a + b + c) == l * a + l * b + l * c,
{
}

/// The square of a product is the product of the squares.
pub proof fn lemma_sq_of_mul(a: int, b: int)
    by (nonlinear_arith)
    ensures
        (a * b) * (a * b) == (a * a) * (b * b),
{
}

/// A vector whose squared length is at most `m^2` has every component in
/// `[-m, m]`.
pub proof fn lemma_within_of_norm(v: (int, int, int), m: int)
    requires
        norm_sq(v) <= m * m,
        0 <= m,
    ensures
        within(v, m),
{
    lemma_sq_nonneg(v.0);
    lemma_sq_nonneg(v.1);
    lemma_sq_nonneg(v.2);
    lemma_abs_le_of_sq(v.0, m);
    lemma_abs_le_of_sq(v.1, m);
    lemma_abs_le_of_sq(v.2, m);
}

impl Vec3 {
    /// Rescales `self` toward length `len`. Instead of normalizing to a
    /// unit vector and multiplying back up, the two steps are fused into
    /// one integer scaling, so the result is exact and provably never
    /// longer than `len`.
    pub fn scaled_to(&self, len: i64) -> (r: Vec3)
        requires
            within(self@, 400_000),
            0 <= len <= 1_000_000,
        ensures
            r@ == scaled3(self@, len as int),
            norm_sq(r@) <= len * len,
            within(r@, len as int),
    {
        if self.x == 0 && self.y == 0 && self.z == 0 {
            Vec3::zero()
        } else {
            proof {
                assert(norm_sq(self@) > 0) by (nonlinear_arith)
                    requires
                        !(self@.0 == 0 && self@.1 == 0 && self@.2 == 0),
                ;
                lemma_mul_box(self@.0, self@.0, 400_000, 400_000);
                lemma_mul_box(self@.1, self@.1, 400_000, 400_000);
                lemma_mul_box(self@.2, self@.2, 400_000, 400_000);
            }
            let d2: i64 = self.dot(self);
            let d: i64 = ceil_sqrt_i64(d2);
            proof {
                assert(d >= 1) by (nonlinear_arith)
                    requires
                        0 <= d,
                        0 < d2 <= d * d,
                ;
                lemma_mul_box(self@.0, len as int, 400_000, 1_000_000);
                lemma_mul_box(self@.1, len as int, 400_000, 1_000_000);
                lemma_mul_box(self@.2, len as int, 400_000, 1_000_000);
            }
            let rx: i64 = div_trunc(self.x * len, d);
            let ry: i64 = div_trunc(self.y * len, d);
            let rz: i64 = div_trunc(self.z * len, d);
            proof {
                lemma_div_towards_zero_sq(self@.0 * len, d as int);
                lemma_div_towards_zero_sq(self@.1 * len, d as int);
                lemma_div_towards_zero_sq(self@.2 * len, d as int);
                lemma_scaled_norm_bound(
                    self@.0,
                    self@.1,
                    self@.2,
                    len as int,
                    d as int,
                    rx as int,
                    ry as int,
                    rz as int,
                );
                lemma_abs_le_of_sq(rx as int, len as int);
                lemma_abs_le_of_sq(ry as int, len as int);
                lemma_abs_le_of_sq(rz as int, len as int);
            }
            Vec3 { x: rx, y: ry, z: rz }
        }
    }
}

} // verus!
