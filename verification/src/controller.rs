use vstd::prelude::*;

use crate::camera::{v3_ok, Camera, Vec3, POS_LIMIT, V3};
use crate::events::{Key, WindowEvent};

verus! {

/// Greatest movement speed the model covers, in milli-units per tick
/// (a thousand world units every tick).
pub const SPEED_LIMIT: i64 = 1_000_000;

/// Greatest magnitude of a basis-vector component, in milli-units.  A unit
/// vector never exceeds one unit per component; the limit leaves room for
/// rounding by the shell that computes the basis.
pub const DIR_LIMIT: i64 = 2_000;

/// Greatest magnitude of a single displacement component per tick, in
/// micro-units: `SPEED_LIMIT * DIR_LIMIT`.
pub const STEP_LIMIT: i64 = 2_000_000_000;

/// The orthonormal basis of the camera's current orientation, with each
/// component in milli-units of a unit vector.  The caller derives it from
/// the pose's yaw and pitch (forward from the spherical mapping, right from
/// yaw alone, up as their cross product); trigonometry is floating point and
/// stays outside this crate, so the basis arrives as an argument and every
/// contract here holds for whatever basis is handed in.
#[derive(Clone, Copy, PartialEq, Eq, Structural, Debug)]
pub struct Basis {
    pub forward: Vec3,
    pub right: Vec3,
    pub up: Vec3,
}

/// Whether a direction vector's components lie in the modeled range.
pub open spec fn dir_vec_ok(v: V3) -> bool {
    &&& -DIR_LIMIT <= v.x <= DIR_LIMIT
    &&& -DIR_LIMIT <= v.y <= DIR_LIMIT
    &&& -DIR_LIMIT <= v.z <= DIR_LIMIT
}

impl Basis {
    /// Well-formedness: every component lies in the modeled range.
    pub open spec fn wf(self) -> bool {
        dir_vec_ok(self.forward@) && dir_vec_ok(self.right@) && dir_vec_ok(self.up@)
    }

    /// Runtime check of [`Basis::wf`], for callers that build a basis from
    /// unverified arithmetic.
    pub fn in_range(&self) -> (r: bool)
        ensures
            r == self.wf(),
    {
        -DIR_LIMIT <= self.forward.x && self.forward.x <= DIR_LIMIT
            && -DIR_LIMIT <= self.forward.y && self.forward.y <= DIR_LIMIT
            && -DIR_LIMIT <= self.forward.z && self.forward.z <= DIR_LIMIT
            && -DIR_LIMIT <= self.right.x && self.right.x <= DIR_LIMIT
            && -DIR_LIMIT <= self.right.y && self.right.y <= DIR_LIMIT
            && -DIR_LIMIT <= self.right.z && self.right.z <= DIR_LIMIT
            && -DIR_LIMIT <= self.up.x && self.up.x <= DIR_LIMIT
            && -DIR_LIMIT <= self.up.y && self.up.y <= DIR_LIMIT
            && -DIR_LIMIT <= self.up.z && self.up.z <= DIR_LIMIT
    }
}

/// `v` scaled by `k`.
pub open spec fn scale(v: V3, k: int) -> V3 {
    V3 { x: k * v.x, y: k * v.y, z: k * v.z }
}

/// `pos` displaced by `d`, except that a move whose result would leave the
/// modeled position range is skipped whole.
pub open spec fn try_move(pos: V3, d: V3) -> V3 {
    let moved = V3 { x: pos.x + d.x, y: pos.y + d.y, z: pos.z + d.z };
    if v3_ok(moved) {
        moved
    } else {
        pos
    }
}

/// Discrete per-direction input state plus the movement speed, in
/// milli-units per tick.
#[derive(Clone, Copy, PartialEq, Eq, Structural, Debug)]
pub struct CameraController {
    pub speed: i64,
    pub is_up_pressed: bool,
    pub is_down_pressed: bool,
    pub is_forward_pressed: bool,
    pub is_backward_pressed: bool,
    pub is_left_pressed: bool,
    pub is_right_pressed: bool,
}

impl CameraController {
    /// Whether a key is bound to a movement flag.
    pub open spec fn key_recognized(key: Key) -> bool {
        match key {
            Key::Space | Key::ShiftLeft => true,
            Key::KeyW | Key::ArrowUp => true,
            Key::KeyA | Key::ArrowLeft => true,
            Key::KeyS | Key::ArrowDown => true,
            Key::KeyD | Key::ArrowRight => true,
            _ => false,
        }
    }

    /// The flag a key drives, read off the controller; `false` for an
    /// unbound key.
    pub open spec fn key_flag(self, key: Key) -> bool {
        match key {
            Key::Space => self.is_up_pressed,
            Key::ShiftLeft => self.is_down_pressed,
            Key::KeyW | Key::ArrowUp => self.is_forward_pressed,
            Key::KeyA | Key::ArrowLeft => self.is_left_pressed,
            Key::KeyS | Key::ArrowDown => self.is_backward_pressed,
            Key::KeyD | Key::ArrowRight => self.is_right_pressed,
            _ => false,
        }
    }

    /// The controller after one keyboard transition: exactly the bound flag
    /// follows the key's pressed state, an unbound key changes nothing.
    pub open spec fn key_step(self, key: Key, pressed: bool) -> CameraController {
        match key {
            Key::Space => CameraController { is_up_pressed: pressed, ..self },
            Key::ShiftLeft => CameraController { is_down_pressed: pressed, ..self },
            Key::KeyW | Key::ArrowUp => CameraController { is_forward_pressed: pressed, ..self },
            Key::KeyA | Key::ArrowLeft => CameraController { is_left_pressed: pressed, ..self },
            Key::KeyS | Key::ArrowDown => CameraController { is_backward_pressed: pressed, ..self },
            Key::KeyD | Key::ArrowRight => CameraController { is_right_pressed: pressed, ..self },
            _ => self,
        }
    }

    /// The controller after an arbitrary window event; only keyboard input
    /// touches it.
    pub open spec fn event_step(self, event: WindowEvent) -> CameraController {
        match event {
            WindowEvent::KeyboardInput { key, pressed } => self.key_step(key, pressed),
            _ => self,
        }
    }

    /// Whether the controller consumes an event: exactly the keyboard events
    /// whose key is bound.
    pub open spec fn event_consumed(event: WindowEvent) -> bool {
        match event {
            WindowEvent::KeyboardInput { key, pressed: _ } => Self::key_recognized(key),
            _ => false,
        }
    }

    /// At most one horizontal move per tick: the four horizontal flags are
    /// checked in fixed priority order (forward, backward, right, left) and
    /// the first one held wins; later flags are ignored even if also held.
    pub open spec fn horizontal_step(self, pos: V3, b: Basis) -> V3 {
        if self.is_forward_pressed {
            try_move(pos, scale(b.forward@, self.speed as int))
        } else if self.is_backward_pressed {
            try_move(pos, scale(b.forward@, -(self.speed as int)))
        } else if self.is_right_pressed {
            try_move(pos, scale(b.right@, self.speed as int))
        } else if self.is_left_pressed {
            try_move(pos, scale(b.right@, -(self.speed as int)))
        } else {
            pos
        }
    }

    /// At most one vertical move per tick, up before down.
    pub open spec fn vertical_step(self, pos: V3, b: Basis) -> V3 {
        if self.is_up_pressed {
            try_move(pos, scale(b.up@, self.speed as int))
        } else if self.is_down_pressed {
            try_move(pos, scale(b.up@, -(self.speed as int)))
        } else {
            pos
        }
    }

    /// One simulation tick: the horizontal move, then, independently, the
    /// vertical one.  Diagonal movement is deliberately not summed.
    pub open spec fn move_step(self, pos: V3, b: Basis) -> V3 {
        self.vertical_step(self.horizontal_step(pos, b), b)
    }

    pub fn new(speed: i64) -> (c: CameraController)
        ensures
            c == (CameraController {
                speed,
                is_up_pressed: false,
                is_down_pressed: false,
                is_forward_pressed: false,
                is_backward_pressed: false,
                is_left_pressed: false,
                is_right_pressed: false,
            }),
    {
        CameraController {
            speed,
            is_up_pressed: false,
            is_down_pressed: false,
            is_forward_pressed: false,
            is_backward_pressed: false,
            is_left_pressed: false,
            is_right_pressed: false,
        }
    }

    /// Consume a window event: a keyboard event for a bound key sets that
    /// key's flag to the key's pressed state and is reported as consumed;
    /// every other event leaves the controller untouched and is not
    /// consumed, so the caller may handle it further.
    pub fn process_events(&mut self, event: &WindowEvent) -> (consumed: bool)
        ensures
            *final(self) == old(self).event_step(*event),
            consumed == Self::event_consumed(*event),
    {
        match event {
            WindowEvent::KeyboardInput { key, pressed } => {
                let is_pressed = *pressed;
                match key {
                    Key::Space => {
                        self.is_up_pressed = is_pressed;
                        true
                    },
                    Key::ShiftLeft => {
                        self.is_down_pressed = is_pressed;
                        true
                    },
                    Key::KeyW | Key::ArrowUp => {
                        self.is_forward_pressed = is_pressed;
                        true
                    },
                    Key::KeyA | Key::ArrowLeft => {
                        self.is_left_pressed = is_pressed;
                        true
                    },
                    Key::KeyS | Key::ArrowDown => {
                        self.is_backward_pressed = is_pressed;
                        true
                    },
                    Key::KeyD | Key::ArrowRight => {
                        self.is_right_pressed = is_pressed;
                        true
                    },
                    _ => false,
                }
            },
            _ => false,
        }
    }

    /// One simulation tick over the camera's position: applies
    /// [`CameraController::move_step`] exactly.  The basis is expected to be
    /// the unit vectors of the camera's current orientation, scaled to
    /// milli-units; the contract holds for any basis in range.
    pub fn update_camera(&self, camera: &mut Camera, basis: &Basis)
        requires
            old(camera).pos_ok(),
            basis.wf(),
            0 <= self.speed <= SPEED_LIMIT,
        ensures
            final(camera).pos@ == self.move_step(old(camera).pos@, *basis),
            *final(camera) == (Camera { pos: final(camera).pos, ..*old(camera) }),
            final(camera).pos_ok(),
    {
        if self.is_forward_pressed {
            let d = scaled_dir(&basis.forward, self.speed, false);
            try_displace(&mut camera.pos, &d);
        } else if self.is_backward_pressed {
            let d = scaled_dir(&basis.forward, self.speed, true);
            try_displace(&mut camera.pos, &d);
        } else if self.is_right_pressed {
            let d = scaled_dir(&basis.right, self.speed, false);
            try_displace(&mut camera.pos, &d);
        } else if self.is_left_pressed {
            let d = scaled_dir(&basis.right, self.speed, true);
            try_displace(&mut camera.pos, &d);
        }
        if self.is_up_pressed {
            let d = scaled_dir(&basis.up, self.speed, false);
            try_displace(&mut camera.pos, &d);
        } else if self.is_down_pressed {
            let d = scaled_dir(&basis.up, self.speed, true);
            try_displace(&mut camera.pos, &d);
        }
    }
}

/// A direction vector scaled by the speed (negated when moving against it).
/// The result is one tick's displacement, each component within
/// [`STEP_LIMIT`].
fn scaled_dir(v: &Vec3, speed: i64, negate: bool) -> (d: Vec3)
    requires
        dir_vec_ok(v@),
        0 <= speed <= SPEED_LIMIT,
    ensures
        d@ == (if negate {
            scale(v@, -(speed as int))
        } else {
            scale(v@, speed as int)
        }),
        -STEP_LIMIT <= d@.x <= STEP_LIMIT,
        -STEP_LIMIT <= d@.y <= STEP_LIMIT,
        -STEP_LIMIT <= d@.z <= STEP_LIMIT,
{
    proof {
        assert(-STEP_LIMIT <= speed * v.x <= STEP_LIMIT && -STEP_LIMIT <= speed * v.y
            <= STEP_LIMIT && -STEP_LIMIT <= speed * v.z <= STEP_LIMIT) by (nonlinear_arith)
            requires
                0 <= speed <= SPEED_LIMIT,
                -DIR_LIMIT <= v.x <= DIR_LIMIT,
                -DIR_LIMIT <= v.y <= DIR_LIMIT,
                -DIR_LIMIT <= v.z <= DIR_LIMIT,
                STEP_LIMIT == SPEED_LIMIT * DIR_LIMIT,
        ;
        assert(-(speed * v.x) == -(speed as int) * v.x && -(speed * v.y) == -(speed as int) * v.y
            && -(speed * v.z) == -(speed as int) * v.z) by (nonlinear_arith);
    }
    if negate {
        Vec3 { x: -(speed * v.x), y: -(speed * v.y), z: -(speed * v.z) }
    } else {
        Vec3 { x: speed * v.x, y: speed * v.y, z: speed * v.z }
    }
}

/// Displace a position by `d` unless the result would leave the modeled
/// range, in which case the position is left as it stands.
fn try_displace(pos: &mut Vec3, d: &Vec3)
    requires
        v3_ok(old(pos)@),
        -STEP_LIMIT <= d.x <= STEP_LIMIT,
        -STEP_LIMIT <= d.y <= STEP_LIMIT,
        -STEP_LIMIT <= d.z <= STEP_LIMIT,
    ensures
        final(pos)@ == try_move(old(pos)@, d@),
        v3_ok(final(pos)@),
{
    let x = pos.x + d.x;
    let y = pos.y + d.y;
    let z = pos.z + d.z;
    if -POS_LIMIT <= x && x <= POS_LIMIT && -POS_LIMIT <= y && y <= POS_LIMIT && -POS_LIMIT <= z
        && z <= POS_LIMIT {
        *pos = Vec3 { x, y, z };
    }
}

/// With only "forward" held, one tick displaces the position by exactly
/// `speed * forward`; and holding "right" as well changes nothing, because
/// the horizontal flags are checked in fixed priority order and forward
/// wins.  The position is assumed far enough from the modeled world bound
/// that the move is not skipped.
pub proof fn lemma_forward_priority(c_fwd: CameraController, c_both: CameraController, pos: V3, b: Basis)
    requires
        c_fwd.is_forward_pressed,
        !c_fwd.is_backward_pressed,
        !c_fwd.is_left_pressed,
        !c_fwd.is_right_pressed,
        !c_fwd.is_up_pressed,
        !c_fwd.is_down_pressed,
        c_both == (CameraController { is_right_pressed: true, ..c_fwd }),
        v3_ok(pos),
        v3_ok(V3 {
            x: pos.x + c_fwd.speed * b.forward@.x,
            y: pos.y + c_fwd.speed * b.forward@.y,
            z: pos.z + c_fwd.speed * b.forward@.z,
        }),
    ensures
        c_fwd.move_step(pos, b) == (V3 {
            x: pos.x + c_fwd.speed * b.forward@.x,
            y: pos.y + c_fwd.speed * b.forward@.y,
            z: pos.z + c_fwd.speed * b.forward@.z,
        }),
        c_both.move_step(pos, b) == c_fwd.move_step(pos, b),
{
}

/// An unbound key neither changes the controller nor is consumed.
pub proof fn lemma_unmapped_key_ignored(c: CameraController, key: Key, pressed: bool)
    requires
        !CameraController::key_recognized(key),
    ensures
        c.key_step(key, pressed) == c,
        !CameraController::event_consumed(WindowEvent::KeyboardInput { key, pressed }),
{
}

/// Pressing and then releasing the same bound key leaves the controller as
/// it was with that key's flag cleared, and both transitions are consumed;
/// doing the pair a second time changes nothing further, so the flag ends
/// `false` however often the pair runs.
pub proof fn lemma_press_release_restores(c: CameraController, key: Key)
    requires
        CameraController::key_recognized(key),
    ensures
        ({
            let once = c.key_step(key, true).key_step(key, false);
            let twice = once.key_step(key, true).key_step(key, false);
            &&& once == c.key_step(key, false)
            &&& !once.key_flag(key)
            &&& twice == once
        }),
        CameraController::event_consumed(WindowEvent::KeyboardInput { key, pressed: true }),
        CameraController::event_consumed(WindowEvent::KeyboardInput { key, pressed: false }),
{
}

} // verus!
