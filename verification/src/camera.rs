//! Free-look camera navigation.
//!
//! Translation comes from direction keys: the held keys' camera-relative
//! direction vectors are summed and the sum is renormalized before scaling
//! by speed and elapsed time, so diagonal movement is provably no faster
//! than axis-aligned movement. Rotation comes from pointer-motion deltas,
//! only while the pointer is captured: each delta yields a yaw and a pitch
//! angle; the embedding turns them into unit quaternions and composes
//! yaw-before, pitch-after. Quaternion multiplication is multiplicative on
//! squared norms (proved below), so that composition keeps the orientation
//! a unit quaternion up to rounding, which renormalization absorbs.

use vstd::prelude::*;
use crate::cursor::CursorState;
use crate::cursor::captured;
use crate::math::COORD_LIMIT;
use crate::math::SCALE;
use crate::math::Vec3;
use crate::math::clamp_to;
use crate::math::clamped;
use crate::math::div_towards_zero;
use crate::math::div_trunc;
use crate::math::lemma_mul_box;
use crate::math::norm_sq;
use crate::math::scaled3;
use crate::math::within;
use crate::settings::SENSITIVITY_MAX;
use crate::settings::SENSITIVITY_MIN;

verus! {

/// Camera translation speed, hundredths of a unit per second (5 units/s).
pub const WALK_SPEED: i64 = 500;

/// Largest frame time accepted, hundredths of a second (200 s).
pub const DT_LIMIT: i64 = 20_000;

/// Largest pointer-motion delta accepted per event, hundredths of a pixel.
pub const MOUSE_DELTA_LIMIT: i64 = 100_000;

/// The camera: exactly one exists in the scene. Orientation is kept by the
/// embedding as a unit quaternion; this module decides position changes and
/// rotation angles.
#[derive(Clone, Copy, PartialEq, Eq, Structural, Debug)]
pub struct CameraState {
    pub position: Vec3,
}

/// How far one frame's walk reaches: speed times elapsed time, brought
/// back to scale.
pub open spec fn step_len(dt: int) -> int {
    (WALK_SPEED * dt) / (SCALE as int)
}

/// Sum of the held keys' direction vectors: forward for W, back for S,
/// left for A, right for D, all relative to the current orientation.
pub open spec fn walk_sum(
    f: (int, int, int),
    r: (int, int, int),
    w: bool,
    s: bool,
    a: bool,
    d: bool,
) -> (int, int, int) {
    (
        (if w {
            f.0
        } else {
            0
        }) + (if s {
            -f.0
        } else {
            0
        }) + (if a {
            -r.0
        } else {
            0
        }) + (if d {
            r.0
        } else {
            0
        }),
        (if w {
            f.1
        } else {
            0
        }) + (if s {
            -f.1
        } else {
            0
        }) + (if a {
            -r.1
        } else {
            0
        }) + (if d {
            r.1
        } else {
            0
        }),
        (if w {
            f.2
        } else {
            0
        }) + (if s {
            -f.2
        } else {
            0
        }) + (if a {
            -r.2
        } else {
            0
        }) + (if d {
            r.2
        } else {
            0
        }),
    )
}

/// Yaw from one pointer event: minus the horizontal delta, scaled by
/// sensitivity and elapsed time.
pub open spec fn yaw_angle(dx: int, sensitivity: int, dt: int) -> int {
    -div_towards_zero(dx * sensitivity * dt, (SCALE * SCALE) as int)
}

/// Pitch from one pointer event: minus the vertical delta, scaled by
/// sensitivity and elapsed time.
pub open spec fn pitch_angle(dy: int, sensitivity: int, dt: int) -> int {
    -div_towards_zero(dy * sensitivity * dt, (SCALE * SCALE) as int)
}

/// Sums the held keys' camera-relative direction vectors. `forward` and
/// `rightward` are the orientation's forward and right axes; back and left
/// are their negations.
pub fn walk_direction(
    forward: &Vec3,
    rightward: &Vec3,
    w: bool,
    s: bool,
    a: bool,
    d: bool,
) -> (dir: Vec3)
    requires
        within(forward@, COORD_LIMIT as int),
        within(rightward@, COORD_LIMIT as int),
    ensures
        dir@ == walk_sum(forward@, rightward@, w, s, a, d),
        within(dir@, 2 * COORD_LIMIT as int),
{
    let mut x: i64 = 0;
    let mut y: i64 = 0;
    let mut z: i64 = 0;
    if w {
        x = x + forward.x;
        y = y + forward.y;
        z = z + forward.z;
    }
    if s {
        x = x - forward.x;
        y = y - forward.y;
        z = z - forward.z;
    }
    if a {
        x = x - rightward.x;
        y = y - rightward.y;
        z = z - rightward.z;
    }
    if d {
        x = x + rightward.x;
        y = y + rightward.y;
        z = z + rightward.z;
    }
    Vec3 { x, y, z }
}

/// One frame's walk displacement: the key sum renormalized and scaled by
/// speed and elapsed time. Its length provably never exceeds the
/// axis-aligned step, so holding two keys is not faster than holding one.
pub fn walk_displacement(
    forward: &Vec3,
    rightward: &Vec3,
    w: bool,
    s: bool,
    a: bool,
    d: bool,
    dt: i64,
) -> (disp: Vec3)
    requires
        within(forward@, COORD_LIMIT as int),
        within(rightward@, COORD_LIMIT as int),
        0 <= dt <= DT_LIMIT,
    ensures
        disp@ == scaled3(walk_sum(forward@, rightward@, w, s, a, d), step_len(dt as int)),
        norm_sq(disp@) <= step_len(dt as int) * step_len(dt as int),
        within(disp@, step_len(dt as int)),
        0 <= step_len(dt as int) <= COORD_LIMIT,
{
    let dir: Vec3 = walk_direction(forward, rightward, w, s, a, d);
    let len: i64 = div_trunc(WALK_SPEED * dt, SCALE);
    dir.scaled_to(len)
}

/// One frame's ascent along the camera's up axis, for the climb key.
pub fn ascend_displacement(upward: &Vec3, dt: i64) -> (disp: Vec3)
    requires
        within(upward@, COORD_LIMIT as int),
        0 <= dt <= DT_LIMIT,
    ensures
        disp@ == scaled3(upward@, step_len(dt as int)),
        norm_sq(disp@) <= step_len(dt as int) * step_len(dt as int),
        within(disp@, step_len(dt as int)),
{
    let len: i64 = div_trunc(WALK_SPEED * dt, SCALE);
    upward.scaled_to(len)
}

/// Turns one pointer-motion event into yaw and pitch angles (hundredths of
/// a radian), or nothing when the pointer is not captured: rotation is
/// gated on capture.
pub fn look_angles(
    dx: i64,
    dy: i64,
    sensitivity: i64,
    dt: i64,
    cursor: &CursorState,
) -> (r: Option<(i64, i64)>)
    requires
        -MOUSE_DELTA_LIMIT <= dx <= MOUSE_DELTA_LIMIT,
        -MOUSE_DELTA_LIMIT <= dy <= MOUSE_DELTA_LIMIT,
        SENSITIVITY_MIN <= sensitivity <= SENSITIVITY_MAX,
        0 <= dt <= DT_LIMIT,
    ensures
        r is Some <==> captured(*cursor),
        (r matches Some(p) ==> p.0 == yaw_angle(dx as int, sensitivity as int, dt as int) && p.1
            == pitch_angle(dy as int, sensitivity as int, dt as int)),
{
    if cursor.visible {
        None
    } else {
        proof {
            lemma_mul_box(dx as int, sensitivity as int, MOUSE_DELTA_LIMIT as int, 100);
            lemma_mul_box(dx * sensitivity, dt as int, 10_000_000, DT_LIMIT as int);
            lemma_mul_box(dy as int, sensitivity as int, MOUSE_DELTA_LIMIT as int, 100);
            lemma_mul_box(dy * sensitivity, dt as int, 10_000_000, DT_LIMIT as int);
        }
        let sx: i64 = dx * sensitivity * dt;
        let sy: i64 = dy * sensitivity * dt;
        let yaw: i64 = -div_trunc(sx, SCALE * SCALE);
        let pitch: i64 = -div_trunc(sy, SCALE * SCALE);
        Some((yaw, pitch))
    }
}

impl CameraState {
    /// A camera standing at `position`.
    pub fn at(position: Vec3) -> (c: CameraState)
        ensures
            c.position == position,
    {
        CameraState { position }
    }

    /// Moves the camera by `disp`, holding each coordinate inside the
    /// world box.
    pub fn translate(&mut self, disp: Vec3)
        requires
            within(old(self).position@, COORD_LIMIT as int),
            within(disp@, 2 * COORD_LIMIT as int),
        ensures
            final(self).position.x == clamped(
                old(self).position.x + disp.x,
                -COORD_LIMIT as int,
                COORD_LIMIT as int,
            ),
            final(self).position.y == clamped(
                old(self).position.y + disp.y,
                -COORD_LIMIT as int,
                COORD_LIMIT as int,
            ),
            final(self).position.z == clamped(
                old(self).position.z + disp.z,
                -COORD_LIMIT as int,
                COORD_LIMIT as int,
            ),
            within(final(self).position@, COORD_LIMIT as int),
    {
        self.position = Vec3 {
            x: clamp_to(self.position.x + disp.x, -COORD_LIMIT, COORD_LIMIT),
            y: clamp_to(self.position.y + disp.y, -COORD_LIMIT, COORD_LIMIT),
            z: clamp_to(self.position.z + disp.z, -COORD_LIMIT, COORD_LIMIT),
        };
    }
}

/// A quaternion as an integer 4-tuple `(x, y, z, w)`. The embedding's unit
/// orientation quaternions are the same points scaled onto the unit sphere;
/// the norm law below is exact at this level.
pub open spec fn quat_mul(a: (int, int, int, int), b: (int, int, int, int)) -> (
    int,
    int,
    int,
    int,
) {
    (
        a.3 * b.0 + a.0 * b.3 + a.1 * b.2 - a.2 * b.1,
        a.3 * b.1 - a.0 * b.2 + a.1 * b.3 + a.2 * b.0,
        a.3 * b.2 + a.0 * b.1 - a.1 * b.0 + a.2 * b.3,
        a.3 * b.3 - a.0 * b.0 - a.1 * b.1 - a.2 * b.2,
    )
}

/// Squared norm of a quaternion.
pub open spec fn quat_norm_sq(q: (int, int, int, int)) -> int {
    q.0 * q.0 + q.1 * q.1 + q.2 * q.2 + q.3 * q.3
}

/// One pointer event's effect on the orientation: a yaw rotation
/// pre-multiplied onto the current orientation, then a pitch rotation
/// post-multiplied — yaw about the world vertical first, pitch about the
/// camera's local axis second, the fixed order that avoids roll.
pub open spec fn look_composition(
    yaw: (int, int, int, int),
    q: (int, int, int, int),
    pitch: (int, int, int, int),
) -> (int, int, int, int) {
    quat_mul(quat_mul(yaw, q), pitch)
}

/// Expansion of `(p + q + r - s)^2`.
proof fn lemma_sq4_c0(p: int, q: int, r: int, s: int)
    by (nonlinear_arith)
    ensures
        (p + q + r - s) * (p + q + r - s) == p * p + q * q + r * r + s * s + 2 * (p * q) + 2 * (p
            * r) - 2 * (p * s) + 2 * (q * r) - 2 * (q * s) - 2 * (r * s),
{
}

/// Expansion of `(p - q + r + s)^2`.
proof fn lemma_sq4_c1(p: int, q: int, r: int, s: int)
    by (nonlinear_arith)
    ensures
        (p - q + r + s) * (p - q + r + s) == p * p + q * q + r * r + s * s - 2 * (p * q) + 2 * (p
            * r) + 2 * (p * s) - 2 * (q * r) - 2 * (q * s) + 2 * (r * s),
{
}

/// Expansion of `(p + q - r + s)^2`.
proof fn lemma_sq4_c2(p: int, q: int, r: int, s: int)
    by (nonlinear_arith)
    ensures
        (p + q - r + s) * (p + q - r + s) == p * p + q * q + r * r + s * s + 2 * (p * q) - 2 * (p
            * r) + 2 * (p * s) - 2 * (q * r) + 2 * (q * s) - 2 * (r * s),
{
}

/// Expansion of `(p - q - r - s)^2`.
proof fn lemma_sq4_c3(p: int, q: int, r: int, s: int)
    by (nonlinear_arith)
    ensures
        (p - q - r - s) * (p - q - r - s) == p * p + q * q + r * r + s * s - 2 * (p * q) - 2 * (p
            * r) - 2 * (p * s) + 2 * (q * r) + 2 * (q * s) + 2 * (r * s),
{
}

/// Distributing a factor over a four-term sum.
proof fn lemma_distribute4(x: int, y: int, z: int, w: int, l: int)
    by (nonlinear_arith)
    ensures
        (x + y + z + w) * l == x * l + y * l + z * l + w * l,
        l * (x + y + z + w) == l * x + l * y + l * z + l * w,
{
}

/// Squared first component of a quaternion product, in canonical monomials.
proof fn lemma_quat_comp0(a: (int, int, int, int), b: (int, int, int, int))
    ensures
        quat_mul(a, b).0 * quat_mul(a, b).0 == (a.3 * a.3) * (b.0 * b.0) + (a.0 * a.0) * (b.3
            * b.3) + (a.1 * a.1) * (b.2 * b.2) + (a.2 * a.2) * (b.1 * b.1) + 2 * ((a.0 * a.3) * (b.0
            * b.3)) + 2 * ((a.1 * a.3) * (b.0 * b.2)) - 2 * ((a.2 * a.3) * (b.0 * b.1)) + 2 * ((a.0
            * a.1) * (b.2 * b.3)) - 2 * ((a.0 * a.2) * (b.1 * b.3)) - 2 * ((a.1 * a.2) * (b.1
            * b.2)),
{
    let p = a.3 * b.0;
    let q = a.0 * b.3;
    let r = a.1 * b.2;
    let s = a.2 * b.1;
    assert(quat_mul(a, b).0 == p + q + r - s);
    lemma_sq4_c0(p, q, r, s);
    assert(p * p == (a.3 * a.3) * (b.0 * b.0) && q * q == (a.0 * a.0) * (b.3 * b.3) && r * r == (a.1
        * a.1) * (b.2 * b.2) && s * s == (a.2 * a.2) * (b.1 * b.1)) by (nonlinear_arith)
        requires
            p == a.3 * b.0,
            q == a.0 * b.3,
            r == a.1 * b.2,
            s == a.2 * b.1,
    ;
    assert(p * q == (a.0 * a.3) * (b.0 * b.3) && p * r == (a.1 * a.3) * (b.0 * b.2) && p * s == (a.2
        * a.3) * (b.0 * b.1) && q * r == (a.0 * a.1) * (b.2 * b.3) && q * s == (a.0 * a.2) * (b.1
        * b.3) && r * s == (a.1 * a.2) * (b.1 * b.2)) by (nonlinear_arith)
        requires
            p == a.3 * b.0,
            q == a.0 * b.3,
            r == a.1 * b.2,
            s == a.2 * b.1,
    ;
}

/// Squared second component of a quaternion product.
proof fn lemma_quat_comp1(a: (int, int, int, int), b: (int, int, int, int))
    ensures
        quat_mul(a, b).1 * quat_mul(a, b).1 == (a.3 * a.3) * (b.1 * b.1) + (a.0 * a.0) * (b.2
            * b.2) + (a.1 * a.1) * (b.3 * b.3) + (a.2 * a.2) * (b.0 * b.0) - 2 * ((a.0 * a.3) * (b.1
            * b.2)) + 2 * ((a.1 * a.3) * (b.1 * b.3)) + 2 * ((a.2 * a.3) * (b.0 * b.1)) - 2 * ((a.0
            * a.1) * (b.2 * b.3)) - 2 * ((a.0 * a.2) * (b.0 * b.2)) + 2 * ((a.1 * a.2) * (b.0
            * b.3)),
{
    let p = a.3 * b.1;
    let q = a.0 * b.2;
    let r = a.1 * b.3;
    let s = a.2 * b.0;
    assert(quat_mul(a, b).1 == p - q + r + s);
    lemma_sq4_c1(p, q, r, s);
    assert(p * p == (a.3 * a.3) * (b.1 * b.1) && q * q == (a.0 * a.0) * (b.2 * b.2) && r * r == (a.1
        * a.1) * (b.3 * b.3) && s * s == (a.2 * a.2) * (b.0 * b.0)) by (nonlinear_arith)
        requires
            p == a.3 * b.1,
            q == a.0 * b.2,
            r == a.1 * b.3,
            s == a.2 * b.0,
    ;
    assert(p * q == (a.0 * a.3) * (b.1 * b.2) && p * r == (a.1 * a.3) * (b.1 * b.3) && p * s == (a.2
        * a.3) * (b.0 * b.1) && q * r == (a.0 * a.1) * (b.2 * b.3) && q * s == (a.0 * a.2) * (b.0
        * b.2) && r * s == (a.1 * a.2) * (b.0 * b.3)) by (nonlinear_arith)
        requires
            p == a.3 * b.1,
            q == a.0 * b.2,
            r == a.1 * b.3,
            s == a.2 * b.0,
    ;
}

/// Squared third component of a quaternion product.
proof fn lemma_quat_comp2(a: (int, int, int, int), b: (int, int, int, int))
    ensures
        quat_mul(a, b).2 * quat_mul(a, b).2 == (a.3 * a.3) * (b.2 * b.2) + (a.0 * a.0) * (b.1
            * b.1) + (a.1 * a.1) * (b.0 * b.0) + (a.2 * a.2) * (b.3 * b.3) + 2 * ((a.0 * a.3) * (b.1
            * b.2)) - 2 * ((a.1 * a.3) * (b.0 * b.2)) + 2 * ((a.2 * a.3) * (b.2 * b.3)) - 2 * ((a.0
            * a.1) * (b.0 * b.1)) + 2 * ((a.0 * a.2) * (b.1 * b.3)) - 2 * ((a.1 * a.2) * (b.0
            * b.3)),
{
    let p = a.3 * b.2;
    let q = a.0 * b.1;
    let r = a.1 * b.0;
    let s = a.2 * b.3;
    assert(quat_mul(a, b).2 == p + q - r + s);
    lemma_sq4_c2(p, q, r, s);
    assert(p * p == (a.3 * a.3) * (b.2 * b.2) && q * q == (a.0 * a.0) * (b.1 * b.1) && r * r == (a.1
        * a.1) * (b.0 * b.0) && s * s == (a.2 * a.2) * (b.3 * b.3)) by (nonlinear_arith)
        requires
            p == a.3 * b.2,
            q == a.0 * b.1,
            r == a.1 * b.0,
            s == a.2 * b.3,
    ;
    assert(p * q == (a.0 * a.3) * (b.1 * b.2) && p * r == (a.1 * a.3) * (b.0 * b.2) && p * s == (a.2
        * a.3) * (b.2 * b.3) && q * r == (a.0 * a.1) * (b.0 * b.1) && q * s == (a.0 * a.2) * (b.1
        * b.3) && r * s == (a.1 * a.2) * (b.0 * b.3)) by (nonlinear_arith)
        requires
            p == a.3 * b.2,
            q == a.0 * b.1,
            r == a.1 * b.0,
            s == a.2 * b.3,
    ;
}

/// Squared fourth component of a quaternion product.
proof fn lemma_quat_comp3(a: (int, int, int, int), b: (int, int, int, int))
    ensures
        quat_mul(a, b).3 * quat_mul(a, b).3 == (a.3 * a.3) * (b.3 * b.3) + (a.0 * a.0) * (b.0
            * b.0) + (a.1 * a.1) * (b.1 * b.1) + (a.2 * a.2) * (b.2 * b.2) - 2 * ((a.0 * a.3) * (b.0
            * b.3)) - 2 * ((a.1 * a.3) * (b.1 * b.3)) - 2 * ((a.2 * a.3) * (b.2 * b.3)) + 2 * ((a.0
            * a.1) * (b.0 * b.1)) + 2 * ((a.0 * a.2) * (b.0 * b.2)) + 2 * ((a.1 * a.2) * (b.1
            * b.2)),
{
    let p = a.3 * b.3;
    let q = a.0 * b.0;
    let r = a.1 * b.1;
    let s = a.2 * b.2;
    assert(quat_mul(a, b).3 == p - q - r - s);
    lemma_sq4_c3(p, q, r, s);
    assert(p * p == (a.3 * a.3) * (b.3 * b.3) && q * q == (a.0 * a.0) * (b.0 * b.0) && r * r == (a.1
        * a.1) * (b.1 * b.1) && s * s == (a.2 * a.2) * (b.2 * b.2)) by (nonlinear_arith)
        requires
            p == a.3 * b.3,
            q == a.0 * b.0,
            r == a.1 * b.1,
            s == a.2 * b.2,
    ;
    assert(p * q == (a.0 * a.3) * (b.0 * b.3) && p * r == (a.1 * a.3) * (b.1 * b.3) && p * s == (a.2
        * a.3) * (b.2 * b.3) && q * r == (a.0 * a.1) * (b.0 * b.1) && q * s == (a.0 * a.2) * (b.0
        * b.2) && r * s == (a.1 * a.2) * (b.1 * b.2)) by (nonlinear_arith)
        requires
            p == a.3 * b.3,
            q == a.0 * b.0,
            r == a.1 * b.1,
            s == a.2 * b.2,
    ;
}

/// Quaternion multiplication is multiplicative on squared norms (Euler's
/// four-square identity).
pub proof fn lemma_quat_mul_norm(a: (int, int, int, int), b: (int, int, int, int))
    ensures
        quat_norm_sq(quat_mul(a, b)) == quat_norm_sq(a) * quat_norm_sq(b),
{
    lemma_quat_comp0(a, b);
    lemma_quat_comp1(a, b);
    lemma_quat_comp2(a, b);
    lemma_quat_comp3(a, b);
    let nb = quat_norm_sq(b);
    lemma_distribute4(a.0 * a.0, a.1 * a.1, a.2 * a.2, a.3 * a.3, nb);
    lemma_distribute4(b.0 * b.0, b.1 * b.1, b.2 * b.2, b.3 * b.3, a.0 * a.0);
    lemma_distribute4(b.0 * b.0, b.1 * b.1, b.2 * b.2, b.3 * b.3, a.1 * a.1);
    lemma_distribute4(b.0 * b.0, b.1 * b.1, b.2 * b.2, b.3 * b.3, a.2 * a.2);
    lemma_distribute4(b.0 * b.0, b.1 * b.1, b.2 * b.2, b.3 * b.3, a.3 * a.3);
}

/// Composing a unit orientation with unit yaw and pitch rotations yields a
/// unit quaternion again: under exact arithmetic the renormalizations in
/// the pointer loop only absorb rounding, never drift.
pub proof fn lemma_look_composition_unit(
    yaw: (int, int, int, int),
    q: (int, int, int, int),
    pitch: (int, int, int, int),
)
    requires
        quat_norm_sq(yaw) == 1,
        quat_norm_sq(q) == 1,
        quat_norm_sq(pitch) == 1,
    ensures
        quat_norm_sq(look_composition(yaw, q, pitch)) == 1,
{
    lemma_quat_mul_norm(yaw, q);
    lemma_quat_mul_norm(quat_mul(yaw, q), pitch);
}

} // verus!
