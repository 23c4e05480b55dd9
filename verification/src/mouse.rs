use vstd::prelude::*;

use crate::camera::{EulerDeg, E3};

verus! {

/// Greatest magnitude of a cursor coordinate the model covers, in pixels.
pub const COORD_LIMIT: i64 = 10_000_000;

/// Greatest sensitivity the model covers, in millidegrees per pixel
/// (a thousand degrees of turning per pixel of travel).
pub const SENS_LIMIT: i64 = 1_000_000;

/// Greatest magnitude of a single mouse-look angle delta, in millidegrees:
/// `2 * COORD_LIMIT * SENS_LIMIT`.
pub const LOOK_DELTA_LIMIT: i64 = 20_000_000_000_000;

/// An absolute cursor position in whole pixels.
#[derive(Clone, Copy, PartialEq, Eq, Structural, Debug)]
pub struct CursorPos {
    pub x: i64,
    pub y: i64,
}

/// Whether a cursor position lies in the modeled range.
pub open spec fn cursor_ok(p: CursorPos) -> bool {
    &&& -COORD_LIMIT <= p.x <= COORD_LIMIT
    &&& -COORD_LIMIT <= p.y <= COORD_LIMIT
}

/// The mouse-look session state.  The cursor is confined to the window
/// rather than delivered as raw relative motion, so orientation deltas are
/// reconstructed from successive absolute positions.
///
/// `cursor_in` holds the device currently looked after, once one has entered;
/// `last_pos` the last known cursor position, cleared on entry so that the
/// first move after entry yields a zero delta instead of a jump.  This is
/// ephemeral UI state, not camera state.
#[derive(Clone, Copy, PartialEq, Debug)]
pub struct MouseLook {
    pub cursor_in: Option<u64>,
    pub last_pos: Option<CursorPos>,
    pub sensitivity: i64,
}

impl MouseLook {
    /// Well-formedness: sensitivity and the remembered position lie in the
    /// modeled ranges.
    pub open spec fn wf(self) -> bool {
        &&& 0 <= self.sensitivity <= SENS_LIMIT
        &&& match self.last_pos {
            Some(p) => cursor_ok(p),
            None => true,
        }
    }

    /// The state after a cursor-entered event: if no device is followed yet,
    /// the entering device becomes the followed one and the last position is
    /// cleared; otherwise nothing changes.
    pub open spec fn entered_state(self, device_id: u64) -> MouseLook {
        if self.cursor_in is None {
            MouseLook { cursor_in: Some(device_id), last_pos: None, ..self }
        } else {
            self
        }
    }

    /// Whether a cursor-entered event asks the window system to confine the
    /// cursor: exactly when no device was followed yet.
    pub open spec fn entered_confines(self) -> bool {
        self.cursor_in is None
    }

    /// The state after a cursor-moved event: for the followed device the
    /// position is remembered, any other device is ignored.
    pub open spec fn moved_state(self, device_id: u64, p: CursorPos) -> MouseLook {
        if self.cursor_in == Some(device_id) {
            MouseLook { last_pos: Some(p), ..self }
        } else {
            self
        }
    }

    /// The orientation delta a cursor-moved event yields: for the followed
    /// device, the pixel travel since the previous position (the previous
    /// position defaulting to the current one, so the first move after
    /// entry yields zero), with the horizontal travel scaled by minus the
    /// sensitivity into a yaw delta and the vertical travel by plus the
    /// sensitivity into a pitch delta, roll untouched.  Any other device
    /// yields nothing.
    pub open spec fn moved_delta(self, device_id: u64, p: CursorPos) -> Option<E3> {
        if self.cursor_in == Some(device_id) {
            let prev = match self.last_pos {
                Some(q) => q,
                None => p,
            };
            Some(E3 {
                pitch: (p.y - prev.y) * self.sensitivity,
                yaw: -((p.x - prev.x) * self.sensitivity),
                roll: 0,
            })
        } else {
            None
        }
    }

    pub fn new(sensitivity: i64) -> (m: MouseLook)
        ensures
            m.cursor_in is None,
            m.last_pos is None,
            m.sensitivity == sensitivity,
    {
        MouseLook { cursor_in: None, last_pos: None, sensitivity }
    }

    /// A device entered the window.  Returns whether the caller should ask
    /// the window system to confine the cursor to the window bounds.
    pub fn cursor_entered(&mut self, device_id: u64) -> (confine: bool)
        ensures
            *final(self) == old(self).entered_state(device_id),
            confine == old(self).entered_confines(),
    {
        match self.cursor_in {
            None => {
                self.cursor_in = Some(device_id);
                self.last_pos = None;
                true
            },
            Some(_) => false,
        }
    }

    /// A device left the window: deliberately a no-op.  Confinement is
    /// never released automatically; release happens only through the
    /// dedicated modifier key.
    pub fn cursor_left(&mut self, device_id: u64)
        ensures
            *final(self) == *old(self),
    {
        let _ = device_id;
    }

    /// The cursor moved.  For the followed device this remembers the new
    /// position and returns the orientation delta of
    /// [`MouseLook::moved_delta`], in millidegrees; events from any other
    /// device return nothing and change nothing.
    pub fn cursor_moved(&mut self, device_id: u64, p: CursorPos) -> (delta: Option<EulerDeg>)
        requires
            old(self).wf(),
            cursor_ok(p),
        ensures
            *final(self) == old(self).moved_state(device_id, p),
            final(self).wf(),
            match delta {
                Some(d) => {
                    &&& old(self).moved_delta(device_id, p) == Some(d@)
                    &&& -LOOK_DELTA_LIMIT <= d.pitch <= LOOK_DELTA_LIMIT
                    &&& -LOOK_DELTA_LIMIT <= d.yaw <= LOOK_DELTA_LIMIT
                    &&& d.roll == 0
                },
                None => old(self).moved_delta(device_id, p) is None,
            },
    {
        let is_followed = match self.cursor_in {
            Some(t) => t == device_id,
            None => false,
        };
        if is_followed {
            let prev = match self.last_pos {
                Some(q) => q,
                None => p,
            };
            self.last_pos = Some(p);
            let dx = p.x - prev.x;
            let dy = p.y - prev.y;
            proof {
                assert(-LOOK_DELTA_LIMIT <= dy * self.sensitivity <= LOOK_DELTA_LIMIT
                    && -LOOK_DELTA_LIMIT <= dx * self.sensitivity <= LOOK_DELTA_LIMIT)
                    by (nonlinear_arith)
                    requires
                        -2 * COORD_LIMIT <= dx <= 2 * COORD_LIMIT,
                        -2 * COORD_LIMIT <= dy <= 2 * COORD_LIMIT,
                        0 <= self.sensitivity <= SENS_LIMIT,
                        LOOK_DELTA_LIMIT == 2 * COORD_LIMIT * SENS_LIMIT,
                ;
            }
            Some(EulerDeg {
                pitch: dy * self.sensitivity,
                yaw: -(dx * self.sensitivity),
                roll: 0,
            })
        } else {
            None
        }
    }
}

/// After a cursor-entered transition that starts following a device, the first move
/// event yields a zero orientation delta wherever the cursor turns up: the
/// entry cleared the remembered position, so the previous position defaults
/// to the current one.
pub proof fn lemma_first_move_zero_delta(m: MouseLook, device_id: u64, p: CursorPos)
    requires
        m.cursor_in is None,
    ensures
        m.entered_state(device_id).moved_delta(device_id, p) == Some(E3 { pitch: 0, yaw: 0, roll: 0 }),
{
}

/// A move that reports the position already remembered yields a zero
/// orientation delta: a stationary cursor turns the camera not at all.
pub proof fn lemma_stationary_cursor(m: MouseLook, device_id: u64, p: CursorPos)
    requires
        m.cursor_in == Some(device_id),
        m.last_pos == Some(p),
    ensures
        m.moved_delta(device_id, p) == Some(E3 { pitch: 0, yaw: 0, roll: 0 }),
{
}

} // verus!
