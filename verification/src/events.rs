use vstd::prelude::*;

verus! {

/// The physical keys the viewer's control scheme distinguishes.  Every other
/// key the window system can report is folded into `Unmapped` by the shell
/// that translates raw window events into [`WindowEvent`] values.
#[derive(Clone, Copy, PartialEq, Eq, Structural, Debug)]
pub enum Key {
    KeyW,
    KeyA,
    KeyS,
    KeyD,
    ArrowUp,
    ArrowDown,
    ArrowLeft,
    ArrowRight,
    Space,
    ShiftLeft,
    Escape,
    AltLeft,
    Unmapped,
}

/// A window-system event, reduced to the data the core reads.
///
/// Cursor events carry a small token standing for the pointing device that
/// produced them (the shell assigns one token per device), and cursor
/// positions in whole pixels.  Everything the core does not react to arrives
/// as `Other`.
#[derive(Clone, Copy, PartialEq, Eq, Structural, Debug)]
pub enum WindowEvent {
    CursorEntered { device_id: u64 },
    CursorLeft { device_id: u64 },
    CursorMoved { device_id: u64, x: i64, y: i64 },
    KeyboardInput { key: Key, pressed: bool },
    CloseRequested,
    Resized { width: u32, height: u32 },
    ScaleFactorChanged,
    RedrawRequested,
    Other,
}

} // verus!
