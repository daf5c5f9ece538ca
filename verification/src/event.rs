//! What the window and the graphics surface report, and what the caller is
//! told to do about it.

use vstd::prelude::*;

verus! {

/// A size in physical pixels.
#[derive(Clone, Copy, Debug, PartialEq, Eq)]
pub struct PhysicalSize {
    pub width: u32,
    pub height: u32,
}

impl PhysicalSize {
    /// A surface can be configured to this size: neither side is zero.
    pub open spec fn is_usable(self) -> bool {
        self.width > 0 && self.height > 0
    }
}

/// Whether a button or a key went down or came up.
#[derive(Clone, Copy, Debug, PartialEq, Eq)]
pub enum ElementState {
    Pressed,
    Released,
}

/// A button of the pointer.
#[derive(Clone, Copy, Debug, PartialEq, Eq)]
pub enum MouseButton {
    Left,
    Right,
    Middle,
    Other,
}

/// A key, as far as the simulation tells keys apart.
#[derive(Clone, Copy, Debug, PartialEq, Eq)]
pub enum Key {
    Escape,
    Other,
}

/// An event of the simulation's window.
#[derive(Clone, Copy, Debug, PartialEq, Eq)]
pub enum WindowEvent {
    CloseRequested,
    KeyboardInput { state: ElementState, key: Key },
    Resized(PhysicalSize),
    ScaleFactorChanged { new_inner_size: PhysicalSize },
    MouseInput { state: ElementState, button: MouseButton },
    /// The pointer moved. The coordinates are single-precision bit patterns in
    /// the normalised space of the window: both run from -1 to 1, `x` to the
    /// right and `y` upwards.
    CursorMoved { x: u32, y: u32 },
    Other,
}

/// An event of the event loop.
#[derive(Clone, Copy, Debug, PartialEq, Eq)]
pub enum Event {
    /// An event of the simulation's own window.
    WindowEvent(WindowEvent),
    RedrawRequested,
    RedrawEventsCleared,
    Other,
}

/// Why a frame could not be had from the surface.
#[derive(Clone, Copy, Debug, PartialEq, Eq)]
pub enum SurfaceError {
    Timeout,
    Outdated,
    Lost,
    OutOfMemory,
}

/// What the caller does next.
#[derive(Clone, Copy, Debug, PartialEq, Eq)]
pub enum Action {
    /// Go on with the next event.
    Nothing,
    /// Leave the event loop.
    Exit,
    /// Configure the surface anew, to the size that the state holds.
    Reconfigure,
    /// Advance the simulation by one tick and draw a frame.
    Redraw,
    /// Ask the window for another redraw.
    RequestRedraw,
    /// Log that the surface timed out, and skip the frame.
    WarnTimeout,
}

} // verus!
