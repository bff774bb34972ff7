use ball_sandbox::camera::ascend_displacement;
use ball_sandbox::camera::look_angles;
use ball_sandbox::camera::walk_displacement;
use ball_sandbox::containment::contain_all;
use ball_sandbox::containment::Boundary;
use ball_sandbox::containment::ContainedBody;
use ball_sandbox::cursor::CursorState;
use ball_sandbox::cursor::GrabMode;
use ball_sandbox::ground::GroundEntity;
use ball_sandbox::ground::GroundSynchronizer;
use ball_sandbox::math::ceil_sqrt_i64;
use ball_sandbox::math::clamp_to;
use ball_sandbox::math::div_trunc;
use ball_sandbox::math::Vec3;
use ball_sandbox::scene::advance_frame;
use ball_sandbox::scene::initial_scene;
use ball_sandbox::scene::FrameInput;
use ball_sandbox::settings::PresentMode;
use ball_sandbox::settings::SettingsStore;

fn v(x: i64, y: i64, z: i64) -> Vec3 {
    Vec3 { x, y, z }
}

fn test_boundary() -> Boundary {
    // Center (0, 19, 0), radius 14, in hundredths.
    Boundary { center: v(0, 1_900, 0), radius: 1_400 }
}

fn norm_sq(a: Vec3) -> i64 {
    a.x * a.x + a.y * a.y + a.z * a.z
}

#[test]
fn div_trunc_rounds_toward_zero() {
    assert_eq!(div_trunc(7, 2), 3);
    assert_eq!(div_trunc(-7, 2), -3);
    assert_eq!(div_trunc(0, 5), 0);
    assert_eq!(div_trunc(9, 3), 3);
}

#[test]
fn clamp_to_limits() {
    assert_eq!(clamp_to(5, 10, 100), 10);
    assert_eq!(clamp_to(5_000, 10, 100), 100);
    assert_eq!(clamp_to(42, 10, 100), 42);
}

#[test]
fn ceil_sqrt_values() {
    assert_eq!(ceil_sqrt_i64(0), 0);
    assert_eq!(ceil_sqrt_i64(1), 1);
    assert_eq!(ceil_sqrt_i64(2), 2);
    assert_eq!(ceil_sqrt_i64(4), 2);
    assert_eq!(ceil_sqrt_i64(2_501), 51);
    assert_eq!(ceil_sqrt_i64(1_960_000), 1_400);
}

#[test]
fn body_near_center_is_left_alone() {
    // Body at (0, 14, 0.1), velocity (0, -5, 0): distance ~4.9 is well
    // under max_distance ~13.3, so no correction happens.
    let mut bodies = vec![ContainedBody {
        position: v(0, 1_400, 10),
        velocity: v(0, -500, 0),
        radius: 50,
    }];
    let before = bodies[0];
    contain_all(&mut bodies, &test_boundary());
    assert_eq!(bodies[0], before);
}

#[test]
fn body_at_exact_center_is_left_alone() {
    let mut bodies = vec![ContainedBody {
        position: v(0, 1_900, 0),
        velocity: v(300, 0, 0),
        radius: 50,
    }];
    let before = bodies[0];
    contain_all(&mut bodies, &test_boundary());
    assert_eq!(bodies[0], before);
}

#[test]
fn escaped_body_is_pulled_back_to_shell() {
    // Body pushed to (0, 33, 0): distance 14 exceeds max_distance 13.3,
    // so it is repositioned to (0, 19 + 13.3, 0).
    let mut bodies = vec![ContainedBody {
        position: v(0, 3_300, 0),
        velocity: v(0, -300, 0),
        radius: 50,
    }];
    contain_all(&mut bodies, &test_boundary());
    assert_eq!(bodies[0].position, v(0, 3_230, 0));
    // Moving inward already: velocity untouched.
    assert_eq!(bodies[0].velocity, v(0, -300, 0));
}

#[test]
fn outward_velocity_is_reflected_and_speed_kept() {
    let boundary = test_boundary();
    let mut bodies = vec![ContainedBody {
        position: v(0, 3_300, 0),
        velocity: v(0, 500, 0),
        radius: 50,
    }];
    contain_all(&mut bodies, &boundary);
    assert_eq!(bodies[0].position, v(0, 3_230, 0));
    assert_eq!(bodies[0].velocity, v(0, -500, 0));
    assert_eq!(norm_sq(bodies[0].velocity), norm_sq(v(0, 500, 0)));
    // And after the correction the body is inside the shell.
    let off = v(
        bodies[0].position.x - boundary.center.x,
        bodies[0].position.y - boundary.center.y,
        bodies[0].position.z - boundary.center.z,
    );
    let max = boundary.radius - bodies[0].radius - 20;
    assert!(norm_sq(off) <= max * max);
}

#[test]
fn oblique_reflection_keeps_body_inside() {
    let boundary = test_boundary();
    let mut bodies = vec![ContainedBody {
        position: v(900, 2_900, 200),
        velocity: v(400, 300, -120),
        radius: 50,
    }];
    let speed_before = norm_sq(bodies[0].velocity);
    contain_all(&mut bodies, &boundary);
    let off = v(
        bodies[0].position.x - boundary.center.x,
        bodies[0].position.y - boundary.center.y,
        bodies[0].position.z - boundary.center.z,
    );
    let max = boundary.radius - bodies[0].radius - 20;
    assert!(norm_sq(off) <= max * max);
    // Fixed-point rounding may only lose speed, never add it.
    assert!(norm_sq(bodies[0].velocity) <= speed_before);
}

#[test]
fn body_exactly_on_shell_is_left_alone() {
    // Distance equals max_distance exactly: correction applies only
    // strictly beyond the shell, so even an outward mover is untouched.
    let mut bodies = vec![ContainedBody {
        position: v(0, 3_230, 0),
        velocity: v(0, 100, 0),
        radius: 50,
    }];
    let before = bodies[0];
    contain_all(&mut bodies, &test_boundary());
    assert_eq!(bodies[0], before);
}

#[test]
fn toggle_capture_twice_restores_flags() {
    let mut c = CursorState::released();
    assert!(c.visible);
    assert_eq!(c.grab, GrabMode::Unlocked);
    c.toggle();
    assert!(!c.visible);
    assert_eq!(c.grab, GrabMode::Confined);
    c.toggle();
    assert!(c.visible);
    assert_eq!(c.grab, GrabMode::Unlocked);
}

#[test]
fn ground_sync_rebuilds_once_per_change() {
    let mut sync = GroundSynchronizer::new();
    let mut ground = GroundEntity::spawned(v(2_000, 100, 1_500));
    // First run: the fresh detector has applied nothing yet, so it rebuilds.
    let rebuilt = sync.sync(v(2_000, 100, 1_500), &mut ground);
    assert!(rebuilt);
    assert_eq!(ground.revision, 1);
    // Second run with unchanged settings: a complete no-op.
    let rebuilt_again = sync.sync(v(2_000, 100, 1_500), &mut ground);
    assert!(!rebuilt_again);
    assert_eq!(ground.revision, 1);
    assert_eq!(ground.size, v(2_000, 100, 1_500));
    // A changed size rebuilds exactly once more.
    assert!(sync.sync(v(3_000, 100, 1_500), &mut ground));
    assert_eq!(ground.revision, 2);
    assert_eq!(ground.size, v(3_000, 100, 1_500));
}

#[test]
fn ground_half_extents_halve_each_axis() {
    let ground = GroundEntity::spawned(v(2_000, 100, 1_500));
    assert_eq!(ground.half_extents(), v(1_000, 50, 750));
}

#[test]
fn settings_defaults_and_clamping() {
    let mut s = SettingsStore::new();
    assert!(!s.vsync);
    assert_eq!(s.ball_counter, 1);
    assert_eq!(s.sensitivity, 50);
    assert_eq!(s.ground_size, v(2_000, 100, 1_500));
    assert_eq!(s.present_mode(), PresentMode::AutoNoVsync);
    s.set_vsync(true);
    assert_eq!(s.present_mode(), PresentMode::AutoVsync);
    s.set_sensitivity(5);
    assert_eq!(s.sensitivity, 10);
    s.set_sensitivity(5_000);
    assert_eq!(s.sensitivity, 100);
    s.set_ball_counter(200);
    assert_eq!(s.ball_counter, 100);
    s.set_ground_size(v(5, 1_000, 4_000));
    assert_eq!(s.ground_size, v(1_000, 200, 4_000));
}

#[test]
fn single_key_walk_moves_full_step() {
    // Forward axis (0, 0, -1), one second: exactly 5 units forward.
    let disp = walk_displacement(&v(0, 0, -100), &v(100, 0, 0), true, false, false, false, 100);
    assert_eq!(disp, v(0, 0, -500));
}

#[test]
fn diagonal_walk_is_not_faster() {
    let disp = walk_displacement(&v(0, 0, -100), &v(100, 0, 0), true, false, false, true, 100);
    assert_eq!(disp, v(352, 0, -352));
    assert!(norm_sq(disp) <= 500 * 500);
}

#[test]
fn opposed_keys_cancel() {
    let disp = walk_displacement(&v(0, 0, -100), &v(100, 0, 0), true, true, false, false, 100);
    assert_eq!(disp, v(0, 0, 0));
}

#[test]
fn ascend_moves_along_up_axis() {
    let disp = ascend_displacement(&v(0, 100, 0), 100);
    assert_eq!(disp, v(0, 500, 0));
}

#[test]
fn look_angles_gated_on_capture() {
    let released = CursorState::released();
    assert_eq!(look_angles(200, -100, 50, 2, &released), None);
    let mut captured = CursorState::released();
    captured.toggle();
    assert_eq!(look_angles(200, -100, 50, 2, &captured), Some((-2, 1)));
}

#[test]
fn initial_scene_matches_startup_values() {
    let settings = SettingsStore::new();
    let scene = initial_scene(&settings);
    assert_eq!(scene.camera.position, v(-100, 1_000, 3_000));
    assert!(scene.cursor.visible);
    assert_eq!(scene.boundary.center, v(0, 1_900, 0));
    assert_eq!(scene.boundary.radius, 1_400);
    assert_eq!(scene.body.position, v(0, 1_200, 0));
    assert_eq!(scene.body.velocity, v(0, 0, 0));
    assert_eq!(scene.body.radius, 50);
    assert_eq!(scene.ground.size, v(2_000, 100, 1_500));
    assert_eq!(scene.ground_sync.previous, v(0, 0, 0));
}

#[test]
fn first_frame_toggles_walks_and_rebuilds_ground() {
    let settings = SettingsStore::new();
    let mut scene = initial_scene(&settings);
    let input = FrameInput {
        toggle_capture: true,
        key_forward: true,
        key_back: false,
        key_left: false,
        key_right: false,
        key_ascend: false,
        mouse_dx: 200,
        mouse_dy: -100,
        axis_forward: v(0, 0, -100),
        axis_rightward: v(100, 0, 0),
        axis_upward: v(0, 100, 0),
        dt: 2,
    };
    let fx = advance_frame(&mut scene, &settings, &input);
    // Capture toggled on, so the pointer event rotates the camera.
    assert!(!scene.cursor.visible);
    assert_eq!(fx.look, Some((-2, 1)));
    // Walked 0.1 units along the forward axis.
    assert_eq!(scene.camera.position, v(-100, 1_000, 2_990));
    // The fresh synchronizer rebuilds the slab from the settings.
    assert!(fx.ground_rebuilt);
    assert_eq!(scene.ground.size, v(2_000, 100, 1_500));
    assert_eq!(scene.ground.revision, 1);
    // The ball rests well inside the boundary: untouched.
    assert_eq!(scene.body.position, v(0, 1_200, 0));
    assert_eq!(scene.body.velocity, v(0, 0, 0));
    // A second frame without input changes nothing but the cursor.
    let quiet = FrameInput {
        toggle_capture: false,
        key_forward: false,
        mouse_dx: 0,
        mouse_dy: 0,
        ..input
    };
    let fx2 = advance_frame(&mut scene, &settings, &quiet);
    assert!(!fx2.ground_rebuilt);
    assert_eq!(scene.ground.revision, 1);
    assert_eq!(scene.camera.position, v(-100, 1_000, 2_990));
}
