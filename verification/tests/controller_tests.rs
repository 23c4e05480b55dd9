use camera_core::camera::{Camera, EulerDeg, Vec3, POS_LIMIT};
use camera_core::controller::{Basis, CameraController};
use camera_core::events::{Key, WindowEvent};

fn fresh_controller(speed: i64) -> CameraController {
    CameraController::new(speed)
}

fn key_event(key: Key, pressed: bool) -> WindowEvent {
    WindowEvent::KeyboardInput { key, pressed }
}

fn flat_camera() -> Camera {
    Camera::new(
        EulerDeg { pitch: 0, yaw: 0, roll: 0 },
        Vec3 { x: 0, y: 0, z: 0 },
        800,
        600,
        45_000,
        100_000,
        100_000_000,
    )
}

fn axis_basis() -> Basis {
    Basis {
        forward: Vec3 { x: 0, y: 0, z: 1000 },
        right: Vec3 { x: 1000, y: 0, z: 0 },
        up: Vec3 { x: 0, y: 1000, z: 0 },
    }
}

#[test]
fn new_controller_has_no_flags_set() {
    let c = fresh_controller(200);
    assert_eq!(c.speed, 200);
    assert!(!c.is_up_pressed);
    assert!(!c.is_down_pressed);
    assert!(!c.is_forward_pressed);
    assert!(!c.is_backward_pressed);
    assert!(!c.is_left_pressed);
    assert!(!c.is_right_pressed);
}

#[test]
fn every_binding_drives_its_flag() {
    let cases: Vec<(Key, fn(&CameraController) -> bool)> = vec![
        (Key::Space, |c: &CameraController| c.is_up_pressed),
        (Key::ShiftLeft, |c: &CameraController| c.is_down_pressed),
        (Key::KeyW, |c: &CameraController| c.is_forward_pressed),
        (Key::ArrowUp, |c: &CameraController| c.is_forward_pressed),
        (Key::KeyA, |c: &CameraController| c.is_left_pressed),
        (Key::ArrowLeft, |c: &CameraController| c.is_left_pressed),
        (Key::KeyS, |c: &CameraController| c.is_backward_pressed),
        (Key::ArrowDown, |c: &CameraController| c.is_backward_pressed),
        (Key::KeyD, |c: &CameraController| c.is_right_pressed),
        (Key::ArrowRight, |c: &CameraController| c.is_right_pressed),
    ];
    for (key, flag) in cases {
        let mut c = fresh_controller(200);
        assert!(c.process_events(&key_event(key, true)), "{:?} should be consumed", key);
        assert!(flag(&c), "{:?} should set its flag", key);
        assert!(c.process_events(&key_event(key, false)));
        assert!(!flag(&c), "{:?} release should clear its flag", key);
    }
}

#[test]
fn press_release_twice_restores_flag_and_is_consumed() {
    let mut c = fresh_controller(200);
    for _ in 0..2 {
        assert!(c.process_events(&key_event(Key::KeyW, true)));
        assert!(c.is_forward_pressed);
        assert!(c.process_events(&key_event(Key::KeyW, false)));
        assert!(!c.is_forward_pressed);
    }
    assert_eq!(c, fresh_controller(200));
}

#[test]
fn unmapped_key_is_not_consumed_and_changes_nothing() {
    let mut c = fresh_controller(200);
    assert!(!c.process_events(&key_event(Key::Escape, true)));
    assert!(!c.process_events(&key_event(Key::AltLeft, true)));
    assert!(!c.process_events(&key_event(Key::Unmapped, true)));
    assert_eq!(c, fresh_controller(200));
}

#[test]
fn non_keyboard_events_are_not_consumed() {
    let mut c = fresh_controller(200);
    assert!(!c.process_events(&WindowEvent::CloseRequested));
    assert!(!c.process_events(&WindowEvent::CursorEntered { device_id: 1 }));
    assert!(!c.process_events(&WindowEvent::RedrawRequested));
    assert_eq!(c, fresh_controller(200));
}

#[test]
fn forward_moves_by_exactly_speed_times_forward() {
    let mut camera = flat_camera();
    let mut c = fresh_controller(200);
    c.process_events(&key_event(Key::KeyW, true));
    c.update_camera(&mut camera, &axis_basis());
    // 200 milli-units of speed along a 1000-milli forward vector:
    // 200_000 micro-units, exactly 0.2 units.
    assert_eq!(camera.pos, Vec3 { x: 0, y: 0, z: 200_000 });
    assert_eq!(camera.dir, EulerDeg { pitch: 0, yaw: 0, roll: 0 });
}

#[test]
fn forward_and_right_together_move_like_forward_alone() {
    let mut forward_only = flat_camera();
    let mut c1 = fresh_controller(200);
    c1.process_events(&key_event(Key::KeyW, true));
    c1.update_camera(&mut forward_only, &axis_basis());

    let mut both = flat_camera();
    let mut c2 = fresh_controller(200);
    c2.process_events(&key_event(Key::KeyW, true));
    c2.process_events(&key_event(Key::KeyD, true));
    c2.update_camera(&mut both, &axis_basis());

    assert_eq!(both.pos, forward_only.pos);
    assert_eq!(both.pos, Vec3 { x: 0, y: 0, z: 200_000 });
}

#[test]
fn backward_beats_right_and_left() {
    let mut camera = flat_camera();
    let mut c = fresh_controller(100);
    c.process_events(&key_event(Key::KeyS, true));
    c.process_events(&key_event(Key::KeyD, true));
    c.process_events(&key_event(Key::KeyA, true));
    c.update_camera(&mut camera, &axis_basis());
    assert_eq!(camera.pos, Vec3 { x: 0, y: 0, z: -100_000 });
}

#[test]
fn right_beats_left() {
    let mut camera = flat_camera();
    let mut c = fresh_controller(100);
    c.process_events(&key_event(Key::KeyD, true));
    c.process_events(&key_event(Key::KeyA, true));
    c.update_camera(&mut camera, &axis_basis());
    assert_eq!(camera.pos, Vec3 { x: 100_000, y: 0, z: 0 });
}

#[test]
fn up_beats_down_and_stacks_with_horizontal() {
    let mut camera = flat_camera();
    let mut c = fresh_controller(100);
    c.process_events(&key_event(Key::KeyW, true));
    c.process_events(&key_event(Key::Space, true));
    c.process_events(&key_event(Key::ShiftLeft, true));
    c.update_camera(&mut camera, &axis_basis());
    // One horizontal move (forward) plus one vertical move (up beats down).
    assert_eq!(camera.pos, Vec3 { x: 0, y: 100_000, z: 100_000 });
}

#[test]
fn down_alone_moves_against_up_vector() {
    let mut camera = flat_camera();
    let mut c = fresh_controller(100);
    c.process_events(&key_event(Key::ShiftLeft, true));
    c.update_camera(&mut camera, &axis_basis());
    assert_eq!(camera.pos, Vec3 { x: 0, y: -100_000, z: 0 });
}

#[test]
fn no_flags_no_motion() {
    let mut camera = flat_camera();
    let c = fresh_controller(100);
    c.update_camera(&mut camera, &axis_basis());
    assert_eq!(camera.pos, Vec3 { x: 0, y: 0, z: 0 });
}

#[test]
fn move_at_world_bound_is_skipped() {
    let mut camera = flat_camera();
    camera.pos = Vec3 { x: 0, y: 0, z: POS_LIMIT };
    let mut c = fresh_controller(200);
    c.process_events(&key_event(Key::KeyW, true));
    c.update_camera(&mut camera, &axis_basis());
    assert_eq!(camera.pos, Vec3 { x: 0, y: 0, z: POS_LIMIT });
}

#[test]
fn basis_in_range_checks_every_component() {
    let good = axis_basis();
    assert!(good.in_range());
    let bad = Basis {
        forward: Vec3 { x: 0, y: 0, z: 3000 },
        right: Vec3 { x: 1000, y: 0, z: 0 },
        up: Vec3 { x: 0, y: 1000, z: 0 },
    };
    assert!(!bad.in_range());
}
