//! Spherical containment physics.
//!
//! An external integrator moves the ball freely; once per frame this module
//! pulls any body that escaped its spherical boundary back onto a shell
//! strictly inside it and reflects the body's velocity elastically when the
//! body is still moving outward. Both corrections are exact fixed-point
//! arithmetic: the repositioned body provably never ends up outside the
//! shell, and the ideal reflection provably preserves speed.

use vstd::prelude::*;
use crate::math::COORD_LIMIT;
use crate::math::Vec3;
use crate::math::add3;
use crate::math::div_towards_zero;
use crate::math::div_trunc;
use crate::math::dot3;
use crate::math::lemma_distribute3;
use crate::math::lemma_div_towards_zero_sq;
use crate::math::lemma_mul_box;
use crate::math::lemma_mul_cancel;
use crate::math::lemma_sq_nonneg;
use crate::math::lemma_within_of_norm;
use crate::math::norm_sq;
use crate::math::scaled3;
use crate::math::sub3;
use crate::math::within;

verus! {

/// Safety buffer below the boundary radius, hundredths (0.2 units): a
/// corrected body is kept strictly inside, never tangent.
pub const BOUNDARY_MARGIN: i64 = 20;

/// Cap on a body's squared speed (hundredths squared). It admits every
/// velocity whose components fit the coordinate box and is preserved by the
/// correction, which never speeds a body up.
pub const VELOCITY_NORM_CAP: i64 = 30_000_000_000;

/// Every velocity component of a body under the cap fits in this bound.
pub const VELOCITY_COMPONENT_LIMIT: i64 = 173_206;

/// A dynamic body kept inside the boundary.
#[derive(Clone, Copy, PartialEq, Eq, Structural, Debug)]
pub struct ContainedBody {
    /// Center position, hundredths of a unit.
    pub position: Vec3,
    /// Linear velocity, hundredths of a unit per second.
    pub velocity: Vec3,
    /// Collision radius, hundredths of a unit.
    pub radius: i64,
}

/// The fixed spherical boundary; it never moves and never collides except
/// through the containment correction.
#[derive(Clone, Copy, PartialEq, Eq, Structural, Debug)]
pub struct Boundary {
    /// Center, hundredths of a unit.
    pub center: Vec3,
    /// Radius, hundredths of a unit.
    pub radius: i64,
}

/// The body's coordinates and speed fit the fixed-point ranges.
pub open spec fn body_wf(b: ContainedBody) -> bool {
    &&& within(b.position@, COORD_LIMIT as int)
    &&& norm_sq(b.velocity@) <= VELOCITY_NORM_CAP
    &&& 0 <= b.radius <= COORD_LIMIT
}

/// The boundary ball sits entirely inside the coordinate box.
pub open spec fn boundary_wf(bd: Boundary) -> bool {
    &&& 0 < bd.radius <= COORD_LIMIT
    &&& within(bd.center@, COORD_LIMIT - bd.radius)
}

/// Largest distance from the boundary center a body's center may keep.
pub open spec fn max_dist(b: ContainedBody, bd: Boundary) -> int {
    bd.radius - b.radius - BOUNDARY_MARGIN
}

/// Vector from the boundary center to the body.
pub open spec fn offset3(b: ContainedBody, bd: Boundary) -> (int, int, int) {
    sub3(b.position@, bd.center@)
}

/// Squared distance of the body from the boundary center.
pub open spec fn dist_sq(b: ContainedBody, bd: Boundary) -> int {
    norm_sq(offset3(b, bd))
}

/// The body sits farther out than `max_dist` and must be corrected.
pub open spec fn needs_correction(b: ContainedBody, bd: Boundary) -> bool {
    dist_sq(b, bd) > max_dist(b, bd) * max_dist(b, bd)
}

/// Outward component of the velocity: positive exactly when the body moves
/// away from the boundary center.
pub open spec fn outward_speed(b: ContainedBody, bd: Boundary) -> int {
    dot3(b.velocity@, offset3(b, bd))
}

/// The elastic reflection `v - 2 (v . n) n` about the unit inward normal
/// `n = -o / |o|`, scaled by `|o|^2` so it stays in the integers:
/// component `i` is `|o|^2 v_i - 2 (v . o) o_i`.
pub open spec fn reflected_scaled(v: (int, int, int), o: (int, int, int)) -> (int, int, int) {
    (
        norm_sq(o) * v.0 - 2 * dot3(v, o) * o.0,
        norm_sq(o) * v.1 - 2 * dot3(v, o) * o.1,
        norm_sq(o) * v.2 - 2 * dot3(v, o) * o.2,
    )
}

/// Where a correction puts the body: back on the shell of radius
/// `max_dist`, along its current offset direction.
pub open spec fn corrected_position(b: ContainedBody, bd: Boundary) -> (int, int, int) {
    add3(bd.center@, scaled3(offset3(b, bd), max_dist(b, bd)))
}

/// What a correction leaves as velocity: unchanged when the body already
/// moves inward (or rests), else the scaled reflection divided back down.
pub open spec fn corrected_velocity(b: ContainedBody, bd: Boundary) -> (int, int, int) {
    if outward_speed(b, bd) <= 0 {
        b.velocity@
    } else {
        let w = reflected_scaled(b.velocity@, offset3(b, bd));
        (
            div_towards_zero(w.0, dist_sq(b, bd)),
            div_towards_zero(w.1, dist_sq(b, bd)),
            div_towards_zero(w.2, dist_sq(b, bd)),
        )
    }
}

/// Everything one containment step does to a body.
pub open spec fn contain_relation(pre: ContainedBody, bd: Boundary, post: ContainedBody) -> bool {
    &&& post.radius == pre.radius
    &&& !needs_correction(pre, bd) ==> post == pre
    &&& needs_correction(pre, bd) ==> post.position@ == corrected_position(pre, bd)
        && post.velocity@ == corrected_velocity(pre, bd)
}

/// Expansion of one squared component of the scaled reflection.
proof fn lemma_reflect_expand(s: int, d: int, a: int, b: int)
    ensures
        (s * a - 2 * d * b) * (s * a - 2 * d * b) == (s * s) * (a * a) - 4 * ((s * d) * (a * b)) + 4
            * ((d * d) * (b * b)),
{
    let x = s * a;
    let y = 2 * d * b;
    assert((x - y) * (x - y) == x * x - 2 * (x * y) + y * y) by (nonlinear_arith);
    assert(x * x == (s * s) * (a * a)) by (nonlinear_arith)
        requires
            x == s * a,
    ;
    assert(x * y == 2 * ((s * d) * (a * b))) by (nonlinear_arith)
        requires
            x == s * a,
            y == 2 * d * b,
    ;
    assert(y * y == 4 * ((d * d) * (b * b))) by (nonlinear_arith)
        requires
            y == 2 * d * b,
    ;
}

/// Reflection preserves speed exactly, at the scaled-integer level: the
/// squared length of `reflected_scaled(v, o)` equals `|o|^4 |v|^2`, so
/// dividing by `|o|^2` returns a vector of exactly the original speed.
pub proof fn lemma_reflection_preserves_speed(v: (int, int, int), o: (int, int, int))
    ensures
        norm_sq(reflected_scaled(v, o)) == (norm_sq(o) * norm_sq(o)) * norm_sq(v),
{
    let s = norm_sq(o);
    let d = dot3(v, o);
    let w = reflected_scaled(v, o);
    assert(w.0 == s * v.0 - 2 * d * o.0);
    assert(w.1 == s * v.1 - 2 * d * o.1);
    assert(w.2 == s * v.2 - 2 * d * o.2);
    lemma_reflect_expand(s, d, v.0, o.0);
    lemma_reflect_expand(s, d, v.1, o.1);
    lemma_reflect_expand(s, d, v.2, o.2);
    assert(norm_sq(w) == (s * s) * (v.0 * v.0) + (s * s) * (v.1 * v.1) + (s * s) * (v.2 * v.2) - 4
        * ((s * d) * (v.0 * o.0)) - 4 * ((s * d) * (v.1 * o.1)) - 4 * ((s * d) * (v.2 * o.2)) + 4
        * ((d * d) * (o.0 * o.0)) + 4 * ((d * d) * (o.1 * o.1)) + 4 * ((d * d) * (o.2 * o.2)));
    lemma_distribute3(v.0 * v.0, v.1 * v.1, v.2 * v.2, s * s);
    lemma_distribute3(v.0 * o.0, v.1 * o.1, v.2 * o.2, s * d);
    lemma_distribute3(o.0 * o.0, o.1 * o.1, o.2 * o.2, d * d);
    assert(v.0 * o.0 + v.1 * o.1 + v.2 * o.2 == d);
    assert(o.0 * o.0 + o.1 * o.1 + o.2 * o.2 == s);
    assert(norm_sq(w) == (s * s) * norm_sq(v) - 4 * ((s * d) * d) + 4 * ((d * d) * s));
    assert(-4 * ((s * d) * d) + 4 * ((d * d) * s) == 0) by (nonlinear_arith);
}

/// Dividing each scaled-reflection component by `|o|^2`, rounding toward
/// zero, never increases the speed.
proof fn lemma_reflected_div_norm(
    v: (int, int, int),
    o: (int, int, int),
    q: (int, int, int),
    s: int,
)
    requires
        s == norm_sq(o),
        s > 0,
        q.0 * q.0 * (s * s) <= reflected_scaled(v, o).0 * reflected_scaled(v, o).0,
        q.1 * q.1 * (s * s) <= reflected_scaled(v, o).1 * reflected_scaled(v, o).1,
        q.2 * q.2 * (s * s) <= reflected_scaled(v, o).2 * reflected_scaled(v, o).2,
    ensures
        norm_sq(q) <= norm_sq(v),
{
    lemma_reflection_preserves_speed(v, o);
    lemma_distribute3(q.0 * q.0, q.1 * q.1, q.2 * q.2, s * s);
    assert(s * s > 0) by (nonlinear_arith)
        requires
            s > 0,
    ;
    assert((norm_sq(q)) * (s * s) <= (norm_sq(v)) * (s * s)) by {
        assert((s * s) * norm_sq(v) == norm_sq(v) * (s * s)) by (nonlinear_arith);
    }
    lemma_mul_cancel(norm_sq(q), norm_sq(v), s * s);
}

impl ContainedBody {
    /// One containment step against `boundary`.
    ///
    /// A body within `max_dist` of the center (including one sitting exactly
    /// on the center, where no direction could be chosen) is left untouched.
    /// A body beyond it is pulled back onto the shell of radius `max_dist`
    /// and, if it was still moving outward, its velocity is reflected about
    /// the inward normal; a body already moving inward keeps its velocity,
    /// so resting contact is never double-reflected. In every case the body
    /// ends inside the shell and no faster than it started.
    pub fn contain(&mut self, boundary: &Boundary)
        requires
            body_wf(*old(self)),
            boundary_wf(*boundary),
            old(self).radius + BOUNDARY_MARGIN <= boundary.radius,
        ensures
            contain_relation(*old(self), *boundary, *final(self)),
            dist_sq(*final(self), *boundary) <= max_dist(*old(self), *boundary) * max_dist(
                *old(self),
                *boundary,
            ),
            !needs_correction(*old(self), *boundary) ==> *final(self) == *old(self),
            needs_correction(*old(self), *boundary) && outward_speed(*old(self), *boundary) <= 0
                ==> final(self).velocity == old(self).velocity,
            norm_sq(final(self).velocity@) <= norm_sq(old(self).velocity@),
            body_wf(*final(self)),
    {
        let o: Vec3 = self.position.minus(&boundary.center);
        proof {
            lemma_mul_box(o@.0, o@.0, 200_000, 200_000);
            lemma_mul_box(o@.1, o@.1, 200_000, 200_000);
            lemma_mul_box(o@.2, o@.2, 200_000, 200_000);
            lemma_sq_nonneg(o@.0);
            lemma_sq_nonneg(o@.1);
            lemma_sq_nonneg(o@.2);
        }
        let d2: i64 = o.dot(&o);
        let max: i64 = boundary.radius - self.radius - BOUNDARY_MARGIN;
        proof {
            lemma_mul_box(max as int, max as int, 100_000, 100_000);
            lemma_sq_nonneg(max as int);
        }
        let mm: i64 = max * max;
        if d2 <= mm {
            // Already inside the shell (this also covers a body exactly at
            // the center): nothing to correct this frame.
        } else {
            let scaled: Vec3 = o.scaled_to(max);
            let newpos: Vec3 = boundary.center.plus(&scaled);
            self.position = newpos;
            proof {
                assert(sub3(newpos@, boundary.center@) == scaled@);
                assert(within(newpos@, COORD_LIMIT as int));
            }
            proof {
                assert(VELOCITY_NORM_CAP <= VELOCITY_COMPONENT_LIMIT * VELOCITY_COMPONENT_LIMIT);
                lemma_within_of_norm(self.velocity@, VELOCITY_COMPONENT_LIMIT as int);
            }
            let vdoto: i64 = self.velocity.dot(&o);
            if vdoto > 0 {
                proof {
                    lemma_mul_box(self.velocity@.0, o@.0, 173_206, 200_000);
                    lemma_mul_box(self.velocity@.1, o@.1, 173_206, 200_000);
                    lemma_mul_box(self.velocity@.2, o@.2, 173_206, 200_000);
                    lemma_mul_box(d2 as int, self.velocity@.0, 120_000_000_000, 173_206);
                    lemma_mul_box(d2 as int, self.velocity@.1, 120_000_000_000, 173_206);
                    lemma_mul_box(d2 as int, self.velocity@.2, 120_000_000_000, 173_206);
                    lemma_mul_box(2 * vdoto as int, o@.0, 207_847_200_000, 200_000);
                    lemma_mul_box(2 * vdoto as int, o@.1, 207_847_200_000, 200_000);
                    lemma_mul_box(2 * vdoto as int, o@.2, 207_847_200_000, 200_000);
                }
                let wx: i64 = d2 * self.velocity.x - 2 * vdoto * o.x;
                let wy: i64 = d2 * self.velocity.y - 2 * vdoto * o.y;
                let wz: i64 = d2 * self.velocity.z - 2 * vdoto * o.z;
                proof {
                    assert((wx as int, wy as int, wz as int) == reflected_scaled(
                        self.velocity@,
                        o@,
                    ));
                }
                let nvx: i64 = div_trunc(wx, d2);
                let nvy: i64 = div_trunc(wy, d2);
                let nvz: i64 = div_trunc(wz, d2);
                let ghost oldv = self.velocity@;
                self.velocity = Vec3 { x: nvx, y: nvy, z: nvz };
                proof {
                    lemma_div_towards_zero_sq(wx as int, d2 as int);
                    lemma_div_towards_zero_sq(wy as int, d2 as int);
                    lemma_div_towards_zero_sq(wz as int, d2 as int);
                    lemma_reflected_div_norm(oldv, o@, self.velocity@, d2 as int);
                }
            }
        }
    }
}

/// Runs one containment step on every contained body. Bodies are
/// independent: each is corrected against the same fixed boundary, and
/// inter-body collision is out of scope.
pub fn contain_all(bodies: &mut Vec<ContainedBody>, boundary: &Boundary)
    requires
        boundary_wf(*boundary),
        forall|i: int|
            0 <= i < old(bodies)@.len() ==> body_wf(#[trigger] old(bodies)@[i]) && old(
                bodies,
            )@[i].radius + BOUNDARY_MARGIN <= boundary.radius,
    ensures
        final(bodies)@.len() == old(bodies)@.len(),
        forall|i: int|
            0 <= i < old(bodies)@.len() ==> contain_relation(
                old(bodies)@[i],
                *boundary,
                #[trigger] final(bodies)@[i],
            ),
        forall|i: int|
            0 <= i < old(bodies)@.len() ==> dist_sq(#[trigger] final(bodies)@[i], *boundary)
                <= max_dist(old(bodies)@[i], *boundary) * max_dist(old(bodies)@[i], *boundary),
        forall|i: int| 0 <= i < old(bodies)@.len() ==> body_wf(#[trigger] final(bodies)@[i]),
{
    let mut idx: usize = 0;
    while idx < bodies.len()
        invariant
            0 <= idx <= bodies@.len(),
            bodies@.len() == old(bodies)@.len(),
            boundary_wf(*boundary),
            forall|i: int|
                0 <= i < old(bodies)@.len() ==> body_wf(#[trigger] old(bodies)@[i]) && old(
                    bodies,
                )@[i].radius + BOUNDARY_MARGIN <= boundary.radius,
            forall|i: int| idx <= i < bodies@.len() ==> #[trigger] bodies@[i] == old(bodies)@[i],
            forall|i: int|
                0 <= i < idx ==> contain_relation(
                    old(bodies)@[i],
                    *boundary,
                    #[trigger] bodies@[i],
                ),
            forall|i: int|
                0 <= i < idx ==> dist_sq(#[trigger] bodies@[i], *boundary) <= max_dist(
                    old(bodies)@[i],
                    *boundary,
                ) * max_dist(old(bodies)@[i], *boundary),
            forall|i: int| 0 <= i < idx ==> body_wf(#[trigger] bodies@[i]),
        decreases bodies@.len() - idx,
    {
        let mut b: ContainedBody = bodies[idx];
        b.contain(boundary);
        bodies.set(idx, b);
        idx = idx + 1;
    }
}

} // verus!
