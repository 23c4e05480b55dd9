use camera_core::camera::{Camera, EulerDeg, Vec3};
use camera_core::controller::CameraController;
use camera_core::driver::{
    handle_render_outcome, LoopAction, RenderDecision, RenderOutcome, Viewer,
};
use camera_core::events::{Key, WindowEvent};
use camera_core::mouse::MouseLook;

fn fresh_viewer() -> Viewer {
    Viewer::new(
        Camera::new(
            EulerDeg { pitch: 0, yaw: 0, roll: 0 },
            Vec3 { x: 0, y: 0, z: 0 },
            800,
            600,
            45_000,
            100_000,
            100_000_000,
        ),
        CameraController::new(200),
        MouseLook::new(1000),
    )
}

#[test]
fn outdated_surface_asks_for_one_reconfigure_not_termination() {
    assert_eq!(handle_render_outcome(RenderOutcome::Outdated), RenderDecision::Reconfigure);
    assert_eq!(handle_render_outcome(RenderOutcome::Lost), RenderDecision::Reconfigure);
}

#[test]
fn out_of_memory_terminates_the_loop() {
    assert_eq!(handle_render_outcome(RenderOutcome::OutOfMemory), RenderDecision::Quit);
}

#[test]
fn timeout_and_success_just_proceed() {
    assert_eq!(handle_render_outcome(RenderOutcome::Timeout), RenderDecision::Proceed);
    assert_eq!(handle_render_outcome(RenderOutcome::Rendered), RenderDecision::Proceed);
}

#[test]
fn pre_handled_events_are_not_applied_again() {
    let mut v = fresh_viewer();
    let before = v;
    let a = v.handle_window_event(
        &WindowEvent::KeyboardInput { key: Key::KeyW, pressed: true },
        true,
    );
    assert_eq!(a, LoopAction::Nothing);
    assert_eq!(v, before);
}

#[test]
fn close_request_and_escape_exit() {
    let mut v = fresh_viewer();
    assert_eq!(v.handle_window_event(&WindowEvent::CloseRequested, false), LoopAction::Exit);
    assert_eq!(
        v.handle_window_event(
            &WindowEvent::KeyboardInput { key: Key::Escape, pressed: true },
            false
        ),
        LoopAction::Exit
    );
    // Any Escape key event exits, pressed or released alike.
    assert_eq!(
        v.handle_window_event(
            &WindowEvent::KeyboardInput { key: Key::Escape, pressed: false },
            false
        ),
        LoopAction::Exit
    );
}

#[test]
fn left_alt_releases_cursor_confinement() {
    let mut v = fresh_viewer();
    assert_eq!(
        v.handle_window_event(
            &WindowEvent::KeyboardInput { key: Key::AltLeft, pressed: true },
            false
        ),
        LoopAction::ReleaseCursor
    );
}

#[test]
fn bound_keys_are_absorbed_by_the_controller() {
    let mut v = fresh_viewer();
    let a = v.handle_window_event(
        &WindowEvent::KeyboardInput { key: Key::KeyW, pressed: true },
        false,
    );
    assert_eq!(a, LoopAction::Nothing);
    assert!(v.controller.is_forward_pressed);
}

#[test]
fn cursor_entry_confines_once() {
    let mut v = fresh_viewer();
    assert_eq!(
        v.handle_window_event(&WindowEvent::CursorEntered { device_id: 3 }, false),
        LoopAction::ConfineCursor
    );
    assert_eq!(
        v.handle_window_event(&WindowEvent::CursorEntered { device_id: 4 }, false),
        LoopAction::Nothing
    );
    assert_eq!(v.mouse.cursor_in, Some(3));
}

#[test]
fn cursor_left_is_a_no_op() {
    let mut v = fresh_viewer();
    v.handle_window_event(&WindowEvent::CursorEntered { device_id: 3 }, false);
    let before = v;
    assert_eq!(
        v.handle_window_event(&WindowEvent::CursorLeft { device_id: 3 }, false),
        LoopAction::Nothing
    );
    assert_eq!(v, before);
}

#[test]
fn mouse_look_turns_the_camera_additively() {
    let mut v = fresh_viewer();
    v.handle_window_event(&WindowEvent::CursorEntered { device_id: 3 }, false);
    v.handle_window_event(&WindowEvent::CursorMoved { device_id: 3, x: 100, y: 100 }, false);
    // First move after entry: zero delta, orientation unchanged.
    assert_eq!(v.camera.dir, EulerDeg { pitch: 0, yaw: 0, roll: 0 });
    v.handle_window_event(&WindowEvent::CursorMoved { device_id: 3, x: 110, y: 95 }, false);
    assert_eq!(v.camera.dir, EulerDeg { pitch: -5_000, yaw: -10_000, roll: 0 });
    v.handle_window_event(&WindowEvent::CursorMoved { device_id: 3, x: 110, y: 105 }, false);
    assert_eq!(v.camera.dir, EulerDeg { pitch: 5_000, yaw: -10_000, roll: 0 });
    // Position and frustum are untouched by mouse look.
    assert_eq!(v.camera.pos, Vec3 { x: 0, y: 0, z: 0 });
    assert_eq!((v.camera.aspect_w, v.camera.aspect_h), (800, 600));
}

#[test]
fn moves_of_an_unfollowed_device_change_nothing() {
    let mut v = fresh_viewer();
    v.handle_window_event(&WindowEvent::CursorEntered { device_id: 3 }, false);
    let before = v;
    v.handle_window_event(&WindowEvent::CursorMoved { device_id: 9, x: 50, y: 60 }, false);
    assert_eq!(v, before);
}

#[test]
fn resize_updates_aspect_and_forwards_the_size() {
    let mut v = fresh_viewer();
    assert_eq!(
        v.handle_window_event(&WindowEvent::Resized { width: 1024, height: 768 }, false),
        LoopAction::Resize { width: 1024, height: 768 }
    );
    assert_eq!((v.camera.aspect_w, v.camera.aspect_h), (1024, 768));
}

#[test]
fn scale_factor_change_resizes_to_current() {
    let mut v = fresh_viewer();
    let before = v;
    assert_eq!(
        v.handle_window_event(&WindowEvent::ScaleFactorChanged, false),
        LoopAction::ResizeToCurrent
    );
    assert_eq!(v, before);
}

#[test]
fn redraw_request_triggers_the_frame_step() {
    let mut v = fresh_viewer();
    assert_eq!(v.handle_window_event(&WindowEvent::RedrawRequested, false), LoopAction::Redraw);
}

#[test]
fn viewer_in_range_accepts_the_fresh_core() {
    let v = fresh_viewer();
    assert!(v.in_range());
    let mut bad = fresh_viewer();
    bad.controller.speed = -1;
    assert!(!bad.in_range());
}
