//! The scene and its per-frame update.
//!
//! The scene holds exactly one of each element — camera, cursor flags,
//! ground slab with its synchronizer, contained body, boundary — as
//! explicit fields established once at initialization, so no runtime
//! singleton search is needed. `advance_frame` applies one frame's inputs
//! in the fixed order: capture toggle, camera look and walk, containment
//! correction of the externally integrated body, ground synchronization.

use vstd::prelude::*;
use crate::camera::CameraState;
use crate::camera::DT_LIMIT;
use crate::camera::MOUSE_DELTA_LIMIT;
use crate::camera::ascend_displacement;
use crate::camera::pitch_angle;
use crate::camera::step_len;
use crate::camera::walk_displacement;
use crate::camera::walk_sum;
use crate::camera::yaw_angle;
use crate::camera::look_angles;
use crate::containment::BOUNDARY_MARGIN;
use crate::containment::Boundary;
use crate::containment::ContainedBody;
use crate::containment::body_wf;
use crate::containment::boundary_wf;
use crate::containment::contain_relation;
use crate::containment::dist_sq;
use crate::containment::max_dist;
use crate::cursor::CursorState;
use crate::cursor::GrabMode;
use crate::cursor::captured;
use crate::cursor::cursor_wf;
use crate::cursor::toggled;
use crate::ground::GroundEntity;
use crate::ground::GroundSynchronizer;
use crate::ground::synced;
use crate::math::COORD_LIMIT;
use crate::math::Vec3;
use crate::math::add3;
use crate::math::clamped;
use crate::math::scaled3;
use crate::math::within;
use crate::settings::SettingsStore;
use crate::settings::settings_wf;

verus! {

/// Initial camera position: `(-1, 10, 30)` world units.
pub const CAMERA_START_X: i64 = -100;

pub const CAMERA_START_Y: i64 = 1_000;

pub const CAMERA_START_Z: i64 = 3_000;

/// Boundary sphere: radius 14 units, centered 5 units above its radius.
pub const BOUNDARY_RADIUS: i64 = 1_400;

pub const BOUNDARY_CENTER_Y: i64 = 1_900;

/// The ball: radius 0.5 units, dropped from 12 units up, at rest.
pub const BALL_RADIUS: i64 = 50;

pub const BALL_START_Y: i64 = 1_200;

/// Everything the simulation owns.
#[derive(Clone, Copy, PartialEq, Eq, Structural, Debug)]
pub struct Scene {
    pub camera: CameraState,
    pub cursor: CursorState,
    pub ground: GroundEntity,
    pub ground_sync: GroundSynchronizer,
    pub body: ContainedBody,
    pub boundary: Boundary,
}

/// One frame's sampled input, as plain values: key states, the pointer
/// delta accumulated since the last frame, the camera's orientation axes
/// (computed by the embedding from its unit quaternion, in hundredths so a
/// unit axis has length 100), and the elapsed time.
#[derive(Clone, Copy, PartialEq, Eq, Structural, Debug)]
pub struct FrameInput {
    /// Edge-trigger of the capture toggle key.
    pub toggle_capture: bool,
    pub key_forward: bool,
    pub key_back: bool,
    pub key_left: bool,
    pub key_right: bool,
    /// Level state of the climb key.
    pub key_ascend: bool,
    pub mouse_dx: i64,
    pub mouse_dy: i64,
    /// Orientation axes, hundredths.
    pub axis_forward: Vec3,
    pub axis_rightward: Vec3,
    pub axis_upward: Vec3,
    /// Elapsed frame time, hundredths of a second.
    pub dt: i64,
}

/// What the embedding must apply after a frame: the look rotation (when
/// the pointer was captured) and whether the ground slab was rebuilt.
#[derive(Clone, Copy, PartialEq, Eq, Debug)]
pub struct FrameEffects {
    /// Yaw and pitch, hundredths of a radian.
    pub look: Option<(i64, i64)>,
    pub ground_rebuilt: bool,
}

/// The whole scene is well-formed.
pub open spec fn scene_wf(s: Scene) -> bool {
    &&& within(s.camera.position@, COORD_LIMIT as int)
    &&& cursor_wf(s.cursor)
    &&& body_wf(s.body)
    &&& boundary_wf(s.boundary)
    &&& s.body.radius + BOUNDARY_MARGIN <= s.boundary.radius
    &&& s.ground.revision < u64::MAX
}

/// The input's magnitudes fit the fixed-point ranges.
pub open spec fn input_wf(input: FrameInput) -> bool {
    &&& -MOUSE_DELTA_LIMIT <= input.mouse_dx <= MOUSE_DELTA_LIMIT
    &&& -MOUSE_DELTA_LIMIT <= input.mouse_dy <= MOUSE_DELTA_LIMIT
    &&& within(input.axis_forward@, COORD_LIMIT as int)
    &&& within(input.axis_rightward@, COORD_LIMIT as int)
    &&& within(input.axis_upward@, COORD_LIMIT as int)
    &&& 0 <= input.dt <= DT_LIMIT
}

/// The one frame's camera displacement: the walk step plus, while the
/// climb key is held, the ascent step.
pub open spec fn frame_displacement(input: FrameInput) -> (int, int, int) {
    let walk = scaled3(
        walk_sum(
            input.axis_forward@,
            input.axis_rightward@,
            input.key_forward,
            input.key_back,
            input.key_left,
            input.key_right,
        ),
        step_len(input.dt as int),
    );
    if input.key_ascend {
        add3(walk, scaled3(input.axis_upward@, step_len(input.dt as int)))
    } else {
        walk
    }
}

/// Builds the scene exactly as the startup routine spawns it: camera at
/// its fixed vantage point, pointer released, boundary sphere floating
/// above the ground slab, the ball at rest inside it, and the slab sized
/// from the settings with nothing recorded as applied yet (so the first
/// synchronizer run rebuilds it).
pub fn initial_scene(settings: &SettingsStore) -> (s: Scene)
    requires
        settings_wf(*settings),
    ensures
        s.camera.position == (Vec3 { x: CAMERA_START_X, y: CAMERA_START_Y, z: CAMERA_START_Z }),
        s.cursor == (CursorState { visible: true, grab: GrabMode::Unlocked }),
        s.ground == (GroundEntity { size: settings.ground_size, revision: 0u64 }),
        s.ground_sync.previous == (Vec3 { x: 0, y: 0, z: 0 }),
        s.body.position == (Vec3 { x: 0, y: BALL_START_Y, z: 0 }),
        s.body.velocity == (Vec3 { x: 0, y: 0, z: 0 }),
        s.body.radius == BALL_RADIUS,
        s.boundary.center == (Vec3 { x: 0, y: BOUNDARY_CENTER_Y, z: 0 }),
        s.boundary.radius == BOUNDARY_RADIUS,
        scene_wf(s),
{
    let s = Scene {
        camera: CameraState::at(Vec3 { x: CAMERA_START_X, y: CAMERA_START_Y, z: CAMERA_START_Z }),
        cursor: CursorState::released(),
        ground: GroundEntity::spawned(settings.ground_size),
        ground_sync: GroundSynchronizer::new(),
        body: ContainedBody {
            position: Vec3 { x: 0, y: BALL_START_Y, z: 0 },
            velocity: Vec3 { x: 0, y: 0, z: 0 },
            radius: BALL_RADIUS,
        },
        boundary: Boundary {
            center: Vec3 { x: 0, y: BOUNDARY_CENTER_Y, z: 0 },
            radius: BOUNDARY_RADIUS,
        },
    };
    proof {
        // The zero velocity trivially satisfies the speed cap.
        assert(s.body.velocity@ == (0int, 0int, 0int));
        assert(crate::math::norm_sq(s.body.velocity@) == 0);
    }
    s
}

/// Applies one frame, in the fixed order: capture toggle, look angles
/// (gated on the post-toggle capture state), camera walk and climb,
/// containment correction of the body the external integrator just moved,
/// then ground synchronization against the settings.
pub fn advance_frame(
    scene: &mut Scene,
    settings: &SettingsStore,
    input: &FrameInput,
) -> (fx: FrameEffects)
    requires
        scene_wf(*old(scene)),
        settings_wf(*settings),
        input_wf(*input),
        old(scene).ground.revision + 1 < u64::MAX,
    ensures
        scene_wf(*final(scene)),
        final(scene).cursor == (if input.toggle_capture {
            toggled(old(scene).cursor)
        } else {
            old(scene).cursor
        }),
        fx.look is Some <==> captured(final(scene).cursor),
        (fx.look matches Some(p) ==> p.0 == yaw_angle(
            input.mouse_dx as int,
            settings.sensitivity as int,
            input.dt as int,
        ) && p.1 == pitch_angle(
            input.mouse_dy as int,
            settings.sensitivity as int,
            input.dt as int,
        )),
        final(scene).camera.position.x == clamped(
            old(scene).camera.position.x + frame_displacement(*input).0,
            -COORD_LIMIT as int,
            COORD_LIMIT as int,
        ),
        final(scene).camera.position.y == clamped(
            old(scene).camera.position.y + frame_displacement(*input).1,
            -COORD_LIMIT as int,
            COORD_LIMIT as int,
        ),
        final(scene).camera.position.z == clamped(
            old(scene).camera.position.z + frame_displacement(*input).2,
            -COORD_LIMIT as int,
            COORD_LIMIT as int,
        ),
        contain_relation(old(scene).body, old(scene).boundary, final(scene).body),
        dist_sq(final(scene).body, final(scene).boundary) <= max_dist(
            old(scene).body,
            old(scene).boundary,
        ) * max_dist(old(scene).body, old(scene).boundary),
        (final(scene).ground_sync, final(scene).ground, fx.ground_rebuilt) == synced(
            old(scene).ground_sync,
            old(scene).ground,
            settings.ground_size,
        ),
        final(scene).boundary == old(scene).boundary,
{
    if input.toggle_capture {
        scene.cursor.toggle();
    }
    let look: Option<(i64, i64)> = look_angles(
        input.mouse_dx,
        input.mouse_dy,
        settings.sensitivity,
        input.dt,
        &scene.cursor,
    );
    let walk: Vec3 = walk_displacement(
        &input.axis_forward,
        &input.axis_rightward,
        input.key_forward,
        input.key_back,
        input.key_left,
        input.key_right,
        input.dt,
    );
    let disp: Vec3 = if input.key_ascend {
        let ascent: Vec3 = ascend_displacement(&input.axis_upward, input.dt);
        walk.plus(&ascent)
    } else {
        walk
    };
    scene.camera.translate(disp);
    scene.body.contain(&scene.boundary);
    let rebuilt: bool = scene.ground_sync.sync(settings.ground_size, &mut scene.ground);
    FrameEffects { look, ground_rebuilt: rebuilt }
}

} // verus!
