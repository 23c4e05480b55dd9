use vstd::prelude::*;

verus! {

/// Greatest magnitude of an orientation angle the model covers, in
/// millidegrees (one hundred trillion degrees of accumulated turning).
/// Orientation updates that would leave this range are dropped, so the pose
/// always stays representable in an `i64`.
pub const ANGLE_LIMIT: i64 = 100_000_000_000_000_000;

/// Greatest magnitude of a position coordinate the model covers, in
/// micro-units (a billion world units).  Moves that would leave this range
/// are skipped, so the position always stays representable in an `i64`.
pub const POS_LIMIT: i64 = 1_000_000_000_000_000;

/// An orientation as three independent rotation angles in millidegrees.
/// Yaw turns about the vertical axis, pitch tilts toward or away from it,
/// roll stays zero under the current control scheme but the field exists.
/// No angle is clamped: yaw and pitch accumulate freely.
#[derive(Clone, Copy, PartialEq, Eq, Structural, Debug)]
pub struct EulerDeg {
    pub pitch: i64,
    pub yaw: i64,
    pub roll: i64,
}

/// Mathematical value of an [`EulerDeg`]: the three angles as integers.
pub ghost struct E3 {
    pub pitch: int,
    pub yaw: int,
    pub roll: int,
}

impl View for EulerDeg {
    type V = E3;

    open spec fn view(&self) -> E3 {
        E3 { pitch: self.pitch as int, yaw: self.yaw as int, roll: self.roll as int }
    }
}

/// A point or direction in 3-D space.  Positions are measured in
/// micro-units, direction vectors handed to the movement controller in
/// milli-units of a unit vector.
#[derive(Clone, Copy, PartialEq, Eq, Structural, Debug)]
pub struct Vec3 {
    pub x: i64,
    pub y: i64,
    pub z: i64,
}

/// Mathematical value of a [`Vec3`]: the three coordinates as integers.
pub ghost struct V3 {
    pub x: int,
    pub y: int,
    pub z: int,
}

impl View for Vec3 {
    type V = V3;

    open spec fn view(&self) -> V3 {
        V3 { x: self.x as int, y: self.y as int, z: self.z as int }
    }
}

/// Whether an angle lies in the modeled range.
pub open spec fn angle_ok(a: int) -> bool {
    -ANGLE_LIMIT <= a <= ANGLE_LIMIT
}

/// Whether all three angles of an orientation lie in the modeled range.
pub open spec fn euler_ok(e: E3) -> bool {
    angle_ok(e.pitch) && angle_ok(e.yaw) && angle_ok(e.roll)
}

/// Whether a position lies in the modeled range.
pub open spec fn v3_ok(v: V3) -> bool {
    &&& -POS_LIMIT <= v.x <= POS_LIMIT
    &&& -POS_LIMIT <= v.y <= POS_LIMIT
    &&& -POS_LIMIT <= v.z <= POS_LIMIT
}

/// The orientation after an additive update by `d`: every angle moves by its
/// delta, except that an update whose result would leave the modeled range
/// is dropped whole.
pub open spec fn look_step(dir: E3, d: E3) -> E3 {
    let moved = E3 {
        pitch: dir.pitch + d.pitch,
        yaw: dir.yaw + d.yaw,
        roll: dir.roll + d.roll,
    };
    if euler_ok(moved) {
        moved
    } else {
        dir
    }
}

/// A zero delta turns the camera not at all: an orientation update by
/// `(0, 0, 0)` gives back the orientation unchanged, whatever it was.
pub proof fn lemma_zero_delta_keeps_orientation(dir: E3)
    ensures
        look_step(dir, E3 { pitch: 0, yaw: 0, roll: 0 }) == dir,
{
}

/// The camera: a pose (orientation and position) plus the frustum
/// parameters of the perspective projection.  The aspect ratio is carried as
/// the surface size in pixels, the field of view in millidegrees, and the
/// near and far planes in micro-units; the rendering shell converts them to
/// its floating-point projection when it builds the view-projection matrix.
#[derive(Clone, Copy, PartialEq, Eq, Structural, Debug)]
pub struct Camera {
    pub dir: EulerDeg,
    pub pos: Vec3,
    pub aspect_w: u32,
    pub aspect_h: u32,
    pub fovy: i64,
    pub znear: i64,
    pub zfar: i64,
}

impl Camera {
    /// Whether the orientation lies in the modeled range.
    pub open spec fn dir_ok(self) -> bool {
        euler_ok(self.dir@)
    }

    /// Whether the position lies in the modeled range.
    pub open spec fn pos_ok(self) -> bool {
        v3_ok(self.pos@)
    }

    /// Well-formedness of the whole camera.
    pub open spec fn wf(self) -> bool {
        self.dir_ok() && self.pos_ok()
    }

    pub fn new(dir: EulerDeg, pos: Vec3, aspect_w: u32, aspect_h: u32, fovy: i64, znear: i64, zfar: i64) -> (c: Camera)
        ensures
            c == (Camera { dir, pos, aspect_w, aspect_h, fovy, znear, zfar }),
    {
        Camera { dir, pos, aspect_w, aspect_h, fovy, znear, zfar }
    }

    /// Record a new surface size; only the aspect ratio changes.
    pub fn set_aspect(&mut self, width: u32, height: u32)
        ensures
            *final(self) == (Camera { aspect_w: width, aspect_h: height, ..*old(self) }),
    {
        self.aspect_w = width;
        self.aspect_h = height;
    }

    /// Additive orientation update: the mouse-look delta is added to the
    /// current angles, never set absolutely.  An update whose result would
    /// leave the modeled angle range is dropped, so a well-formed
    /// orientation stays well-formed.
    pub fn apply_look(&mut self, d: &EulerDeg)
        requires
            old(self).dir_ok(),
            -ANGLE_LIMIT <= d.pitch <= ANGLE_LIMIT,
            -ANGLE_LIMIT <= d.yaw <= ANGLE_LIMIT,
            -ANGLE_LIMIT <= d.roll <= ANGLE_LIMIT,
        ensures
            final(self).dir@ == look_step(old(self).dir@, d@),
            *final(self) == (Camera { dir: final(self).dir, ..*old(self) }),
            final(self).dir_ok(),
    {
        let pitch = self.dir.pitch + d.pitch;
        let yaw = self.dir.yaw + d.yaw;
        let roll = self.dir.roll + d.roll;
        if -ANGLE_LIMIT <= pitch && pitch <= ANGLE_LIMIT && -ANGLE_LIMIT <= yaw && yaw <= ANGLE_LIMIT
            && -ANGLE_LIMIT <= roll && roll <= ANGLE_LIMIT {
            self.dir = EulerDeg { pitch, yaw, roll };
        }
    }
}

} // verus!
