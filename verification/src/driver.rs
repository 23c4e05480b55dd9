use vstd::prelude::*;

use crate::camera::{look_step, Camera, ANGLE_LIMIT};
use crate::controller::{Basis, CameraController, SPEED_LIMIT};
use crate::events::{Key, WindowEvent};
use crate::mouse::{cursor_ok, CursorPos, MouseLook};

verus! {

/// What the event-dispatch step asks the surrounding shell to do.  Every
/// step yields exactly one action; `Nothing` stands for an event that was
/// absorbed (or ignored) without outside effect.
#[derive(Clone, Copy, PartialEq, Eq, Structural, Debug)]
pub enum LoopAction {
    Nothing,
    /// Ask the window system to confine the cursor to the window bounds.
    ConfineCursor,
    /// Release cursor confinement.
    ReleaseCursor,
    /// Terminate the event loop.
    Exit,
    /// Forward a new surface size to the render collaborator.
    Resize { width: u32, height: u32 },
    /// Reconfigure the render collaborator at its current size.
    ResizeToCurrent,
    /// Run the per-frame update and render step.
    Redraw,
}

/// The outcome of the render collaborator's per-frame render call.
#[derive(Clone, Copy, PartialEq, Eq, Structural, Debug)]
pub enum RenderOutcome {
    Rendered,
    Lost,
    Outdated,
    OutOfMemory,
    Timeout,
}

/// What to do about a render outcome.
#[derive(Clone, Copy, PartialEq, Eq, Structural, Debug)]
pub enum RenderDecision {
    /// Carry on; the next frame is requested anyway.
    Proceed,
    /// Reconfigure the surface at the current size, once, and carry on.
    Reconfigure,
    /// Unrecoverable: terminate the loop.
    Quit,
}

/// The policy on render outcomes: a lost or outdated surface is recovered
/// by exactly one reconfiguration at the current size; out-of-memory is
/// fatal; a timeout is transient and ignored, since redraw is requested
/// again next cycle anyway.
pub fn handle_render_outcome(outcome: RenderOutcome) -> (d: RenderDecision)
    ensures
        d == RenderDecision::Reconfigure <==> (outcome == RenderOutcome::Lost || outcome
            == RenderOutcome::Outdated),
        d == RenderDecision::Quit <==> outcome == RenderOutcome::OutOfMemory,
        d == RenderDecision::Proceed <==> (outcome == RenderOutcome::Rendered || outcome
            == RenderOutcome::Timeout),
{
    match outcome {
        RenderOutcome::Rendered => RenderDecision::Proceed,
        RenderOutcome::Lost => RenderDecision::Reconfigure,
        RenderOutcome::Outdated => RenderDecision::Reconfigure,
        RenderOutcome::OutOfMemory => RenderDecision::Quit,
        RenderOutcome::Timeout => RenderDecision::Proceed,
    }
}

/// The viewer core: the camera pose, the movement controller and the
/// mouse-look session state, stepped as one state machine by the event
/// loop.
#[derive(Clone, Copy, PartialEq, Debug)]
pub struct Viewer {
    pub camera: Camera,
    pub controller: CameraController,
    pub mouse: MouseLook,
}

impl Viewer {
    /// Well-formedness of the whole core; every step preserves it.
    pub open spec fn wf(self) -> bool {
        &&& self.camera.wf()
        &&& 0 <= self.controller.speed <= SPEED_LIMIT
        &&& self.mouse.wf()
    }

    /// The action a keyboard event that the controller did not consume
    /// maps to: any Escape event (pressed or released) terminates the
    /// loop, any left-Alt event releases cursor confinement, everything
    /// else does nothing.
    pub open spec fn key_action(key: Key) -> LoopAction {
        if key == Key::Escape {
            LoopAction::Exit
        } else if key == Key::AltLeft {
            LoopAction::ReleaseCursor
        } else {
            LoopAction::Nothing
        }
    }

    pub fn new(camera: Camera, controller: CameraController, mouse: MouseLook) -> (v: Viewer)
        ensures
            v == (Viewer { camera, controller, mouse }),
    {
        Viewer { camera, controller, mouse }
    }

    /// Runtime check of [`Viewer::wf`], for shells that assemble the core
    /// from unverified input.
    pub fn in_range(&self) -> (r: bool)
        ensures
            r == self.wf(),
    {
        let dir_ok = -ANGLE_LIMIT <= self.camera.dir.pitch && self.camera.dir.pitch <= ANGLE_LIMIT
            && -ANGLE_LIMIT <= self.camera.dir.yaw && self.camera.dir.yaw <= ANGLE_LIMIT
            && -ANGLE_LIMIT <= self.camera.dir.roll && self.camera.dir.roll <= ANGLE_LIMIT;
        let pos_ok = -crate::camera::POS_LIMIT <= self.camera.pos.x && self.camera.pos.x
            <= crate::camera::POS_LIMIT && -crate::camera::POS_LIMIT <= self.camera.pos.y
            && self.camera.pos.y <= crate::camera::POS_LIMIT && -crate::camera::POS_LIMIT
            <= self.camera.pos.z && self.camera.pos.z <= crate::camera::POS_LIMIT;
        let speed_ok = 0 <= self.controller.speed && self.controller.speed <= SPEED_LIMIT;
        let sens_ok = 0 <= self.mouse.sensitivity && self.mouse.sensitivity
            <= crate::mouse::SENS_LIMIT;
        let last_ok = match self.mouse.last_pos {
            Some(p) => -crate::mouse::COORD_LIMIT <= p.x && p.x <= crate::mouse::COORD_LIMIT
                && -crate::mouse::COORD_LIMIT <= p.y && p.y <= crate::mouse::COORD_LIMIT,
            None => true,
        };
        dir_ok && pos_ok && speed_ok && sens_ok && last_ok
    }

    /// One step of the event-dispatch state machine.
    ///
    /// `pre_handled` reports whether the render collaborator's generic
    /// input hook already took the event; in that case the core applies no
    /// handling of its own (mutual exclusion between generic and
    /// camera-specific input handling).  Otherwise the event is first
    /// offered to the movement controller, and only an unconsumed event is
    /// dispatched further: Escape or a close request ends the loop,
    /// left-Alt releases cursor confinement, cursor events feed the
    /// mouse-look state machine (a delta updates the camera's orientation
    /// additively), a resize or scale-factor change is forwarded to the
    /// render collaborator, and a redraw request triggers the per-frame
    /// update and render step.  Cursor positions outside the modeled
    /// coordinate range are ignored.
    pub fn handle_window_event(&mut self, event: &WindowEvent, pre_handled: bool) -> (action:
        LoopAction)
        requires
            old(self).wf(),
        ensures
            final(self).wf(),
            pre_handled ==> *final(self) == *old(self) && action == LoopAction::Nothing,
            !pre_handled ==> match *event {
                WindowEvent::KeyboardInput { key, pressed } => {
                    &&& final(self).controller == old(self).controller.key_step(key, pressed)
                    &&& final(self).camera == old(self).camera
                    &&& final(self).mouse == old(self).mouse
                    &&& action == (if CameraController::key_recognized(key) {
                        LoopAction::Nothing
                    } else {
                        Self::key_action(key)
                    })
                },
                WindowEvent::CloseRequested => *final(self) == *old(self) && action
                    == LoopAction::Exit,
                WindowEvent::CursorEntered { device_id } => {
                    &&& final(self).mouse == old(self).mouse.entered_state(device_id)
                    &&& final(self).camera == old(self).camera
                    &&& final(self).controller == old(self).controller
                    &&& action == (if old(self).mouse.entered_confines() {
                        LoopAction::ConfineCursor
                    } else {
                        LoopAction::Nothing
                    })
                },
                WindowEvent::CursorLeft { device_id: _ } => *final(self) == *old(self) && action
                    == LoopAction::Nothing,
                WindowEvent::CursorMoved { device_id, x, y } => {
                    &&& action == LoopAction::Nothing
                    &&& final(self).controller == old(self).controller
                    &&& if cursor_ok(CursorPos { x, y }) {
                        let p = CursorPos { x, y };
                        &&& final(self).mouse == old(self).mouse.moved_state(device_id, p)
                        &&& final(self).camera.dir@ == match old(self).mouse.moved_delta(
                            device_id,
                            p,
                        ) {
                            Some(d) => look_step(old(self).camera.dir@, d),
                            None => old(self).camera.dir@,
                        }
                        &&& final(self).camera == (Camera {
                            dir: final(self).camera.dir,
                            ..old(self).camera
                        })
                    } else {
                        *final(self) == *old(self)
                    }
                },
                WindowEvent::Resized { width, height } => {
                    &&& final(self).camera == (Camera {
                        aspect_w: width,
                        aspect_h: height,
                        ..old(self).camera
                    })
                    &&& final(self).controller == old(self).controller
                    &&& final(self).mouse == old(self).mouse
                    &&& action == (LoopAction::Resize { width, height })
                },
                WindowEvent::ScaleFactorChanged => *final(self) == *old(self) && action
                    == LoopAction::ResizeToCurrent,
                WindowEvent::RedrawRequested => *final(self) == *old(self) && action
                    == LoopAction::Redraw,
                WindowEvent::Other => *final(self) == *old(self) && action == LoopAction::Nothing,
            },
    {
        if pre_handled {
            return LoopAction::Nothing;
        }
        let consumed = self.controller.process_events(event);
        if consumed {
            return LoopAction::Nothing;
        }
        match event {
            WindowEvent::KeyboardInput { key, pressed: _ } => {
                match key {
                    Key::Escape => LoopAction::Exit,
                    Key::AltLeft => LoopAction::ReleaseCursor,
                    _ => LoopAction::Nothing,
                }
            },
            WindowEvent::CloseRequested => LoopAction::Exit,
            WindowEvent::CursorEntered { device_id } => {
                if self.mouse.cursor_entered(*device_id) {
                    LoopAction::ConfineCursor
                } else {
                    LoopAction::Nothing
                }
            },
            WindowEvent::CursorLeft { device_id } => {
                self.mouse.cursor_left(*device_id);
                LoopAction::Nothing
            },
            WindowEvent::CursorMoved { device_id, x, y } => {
                let in_range = -crate::mouse::COORD_LIMIT <= *x && *x <= crate::mouse::COORD_LIMIT
                    && -crate::mouse::COORD_LIMIT <= *y && *y <= crate::mouse::COORD_LIMIT;
                if in_range {
                    let p = CursorPos { x: *x, y: *y };
                    match self.mouse.cursor_moved(*device_id, p) {
                        Some(d) => {
                            self.camera.apply_look(&d);
                        },
                        None => {},
                    }
                }
                LoopAction::Nothing
            },
            WindowEvent::Resized { width, height } => {
                let w = *width;
                let h = *height;
                self.camera.set_aspect(w, h);
                LoopAction::Resize { width: w, height: h }
            },
            WindowEvent::ScaleFactorChanged => LoopAction::ResizeToCurrent,
            WindowEvent::RedrawRequested => LoopAction::Redraw,
            WindowEvent::Other => LoopAction::Nothing,
        }
    }

    /// One simulation tick: the movement controller nudges the camera's
    /// position along the given orientation basis, as
    /// [`CameraController::move_step`] states.
    pub fn tick(&mut self, basis: &Basis)
        requires
            old(self).wf(),
            basis.wf(),
        ensures
            final(self).wf(),
            final(self).controller == old(self).controller,
            final(self).mouse == old(self).mouse,
            final(self).camera.pos@ == old(self).controller.move_step(
                old(self).camera.pos@,
                *basis,
            ),
            final(self).camera == (Camera { pos: final(self).camera.pos, ..old(self).camera }),
    {
        self.controller.update_camera(&mut self.camera, basis);
    }
}

} // verus!
