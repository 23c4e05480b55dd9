use vstd::prelude::*;

verus! {

/// Greatest magnitude of a clip-space coordinate the model covers; doubling
/// such a coordinate still fits an `i64`.
pub const CLIP_LIMIT: i64 = 2_000_000_000_000_000_000;

/// A point in homogeneous clip space, as the perspective matrix produces
/// it: the visible depth is `z / w`, running from -1 at the near plane to
/// +1 at the far plane under the projection math's own convention.
#[derive(Clone, Copy, PartialEq, Eq, Structural, Debug)]
pub struct ClipPoint {
    pub x: i64,
    pub y: i64,
    pub z: i64,
    pub w: i64,
}

/// Mathematical value of a [`ClipPoint`].
pub ghost struct C4 {
    pub x: int,
    pub y: int,
    pub z: int,
    pub w: int,
}

impl View for ClipPoint {
    type V = C4;

    open spec fn view(&self) -> C4 {
        C4 { x: self.x as int, y: self.y as int, z: self.z as int, w: self.w as int }
    }
}

/// The depth-convention correction, applied to a clip-space point.  The
/// rendering backend expects depth in `[0, 1]` where the projection math
/// produces it in `[-1, 1]`, so the fixed correction halves `z` and shifts
/// it by half of `w`.  To stay integral the result is written at twice the
/// scale — every coordinate doubled, `z` becoming `z + w` — which names the
/// same point, since homogeneous coordinates are unchanged under a common
/// factor.  The correction is an API-interop constant, not a camera
/// property, and is applied unconditionally.
pub open spec fn depth_corrected(p: C4) -> C4 {
    C4 { x: 2 * p.x, y: 2 * p.y, z: p.z + p.w, w: 2 * p.w }
}

/// Apply the depth-convention correction exactly.
pub fn apply_depth_correction(p: &ClipPoint) -> (r: ClipPoint)
    requires
        -CLIP_LIMIT <= p.x <= CLIP_LIMIT,
        -CLIP_LIMIT <= p.y <= CLIP_LIMIT,
        -CLIP_LIMIT <= p.z <= CLIP_LIMIT,
        -CLIP_LIMIT <= p.w <= CLIP_LIMIT,
    ensures
        r@ == depth_corrected(p@),
{
    ClipPoint { x: 2 * p.x, y: 2 * p.y, z: p.z + p.w, w: 2 * p.w }
}

/// The correction maps the projection's canonical depth range onto the
/// backend's: a point at clip-space depth -1 (`z == -w`, the near plane)
/// comes out at corrected depth 0 (`z` exactly zero), and a point at
/// clip-space depth +1 (`z == w`, the far plane) at corrected depth 1
/// (`z` equal to `w`).
pub proof fn lemma_depth_correction_endpoints(p: C4)
    requires
        p.w != 0,
    ensures
        p.z == -p.w ==> depth_corrected(p).z == 0,
        p.z == p.w ==> depth_corrected(p).z == depth_corrected(p).w,
{
}

} // verus!
