//! Verified core of a free-flying camera for an interactive 3-D viewer.
//!
//! The library models the camera subsystem over exact integer arithmetic:
//! angles are kept in millidegrees, positions in micro-units, direction
//! vectors in milli-units, and cursor positions in whole pixels.  The
//! windowing and GPU shell around it converts to and from floating point at
//! the boundary; floating-point trigonometry and the GPU surface itself are
//! collaborators outside this crate.
//!
//! The pieces are:
//! - [`events`]: the window-system events the core reacts to;
//! - [`camera`]: the camera pose (orientation and position) and frustum;
//! - [`controller`]: per-direction "held" flags and the per-tick move rule;
//! - [`mouse`]: the confined-cursor mouse-look state machine;
//! - [`driver`]: the event-dispatch step that sequences all of the above;
//! - [`projection`]: the exact model of the clip-space depth correction.

pub mod camera;
pub mod controller;
pub mod driver;
pub mod events;
pub mod mouse;
pub mod projection;
