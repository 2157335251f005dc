//! The events of the windowing layer, reduced to what the library reads.
use vstd::prelude::*;

verus! {

/// A size in physical pixels.
#[derive(Debug, Clone, Copy, PartialEq, Eq, Hash)]
pub struct PhysicalSize {
    pub width: u32,
    pub height: u32,
}

impl PhysicalSize {
    pub fn new(width: u32, height: u32) -> (size: Self)
        ensures
            size == (PhysicalSize { width, height }),
    {
        PhysicalSize { width, height }
    }
}

/// Whether a key went down or came up.
#[derive(Debug, Clone, Copy, PartialEq, Eq, Hash)]
pub enum ElementState {
    Pressed,
    Released,
}

/// One keyboard input: the state of the key and, where the windowing layer
/// could name it, its virtual key code (see [`crate::virtual_keycode`]).
#[derive(Debug, Clone, Copy, PartialEq, Eq, Hash)]
pub struct KeyboardInput {
    pub state: ElementState,
    pub virtual_keycode: Option<u32>,
}

/// An event of one window.
#[derive(Debug, Clone, Copy, PartialEq, Eq, Hash)]
pub enum WindowEvent {
    /// A key was pressed or released.
    KeyboardInput { input: KeyboardInput },
    /// The user asked for the window to be closed.
    CloseRequested,
    /// The window has this new size.
    Resized(PhysicalSize),
    /// The scale factor changed, and with it the window's size.
    ScaleFactorChanged { new_inner_size: PhysicalSize },
    /// Any event that the library does not read.
    Other,
}

/// An event of the event loop.
#[derive(Debug, Clone, Copy, PartialEq, Eq, Hash)]
pub enum Event {
    /// An event of the window with this number.
    WindowEvent { window_id: u64, event: WindowEvent },
    /// All pending events were handed out.
    MainEventsCleared,
    /// A window asks to be drawn again.
    RedrawRequested,
    /// Any event that the library does not read.
    Other,
}

impl WindowEvent {
    /// The key and its state, where the event is a keyboard input with a
    /// virtual key code.
    pub open spec fn key(self) -> Option<(u32, ElementState)> {
        match self {
            WindowEvent::KeyboardInput {
                input: KeyboardInput { state, virtual_keycode: Some(code) },
            } => Some((code, state)),
            _ => None,
        }
    }
}

} // verus!
