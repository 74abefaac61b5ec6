//! The events a windowing host delivers, reduced to what the render state
//! and its event loop read from them.

use vstd::prelude::*;
use crate::surface::PhysicalSize;

verus! {

/// Whether a key or button went down or came up.
#[derive(Clone, Copy, Debug, PartialEq, Eq, Structural)]
pub enum ElementState {
    Pressed,
    Released,
}

/// A button of a mouse.
#[derive(Clone, Copy, Debug, PartialEq, Eq, Structural)]
pub enum MouseButton {
    Left,
    Right,
    Middle,
    Other(u8),
}

/// The meaning of a key, as far as the event loop tells keys apart.
#[derive(Clone, Copy, Debug, PartialEq, Eq, Structural)]
pub enum VirtualKeyCode {
    Escape,
    /// Any key but escape.
    Other,
}

/// A key going down or coming up.
#[derive(Clone, Copy, Debug, PartialEq, Eq, Structural)]
pub struct KeyboardInput {
    pub state: ElementState,
    /// The meaning of the key, where the host could tell it.
    pub virtual_keycode: Option<VirtualKeyCode>,
}

impl KeyboardInput {
    /// The escape key went down.
    pub open spec fn is_escape_press(self) -> bool {
        self.state == ElementState::Pressed && self.virtual_keycode == Some(VirtualKeyCode::Escape)
    }
}

/// Something that happened to a window.
#[derive(Clone, Copy, Debug, PartialEq, Eq, Structural)]
pub enum WindowEvent {
    /// The window now has this size.
    Resized(PhysicalSize),
    /// The user asked for the window to be closed.
    CloseRequested,
    KeyboardInput { input: KeyboardInput },
    MouseInput { state: ElementState, button: MouseButton },
    /// The scale factor changed, and with it the size of the window.
    ScaleFactorChanged { new_inner_size: PhysicalSize },
    /// Any event that is neither read nor acted upon.
    Other,
}

impl WindowEvent {
    /// The left mouse button went down.
    pub open spec fn is_left_press(self) -> bool {
        self == (WindowEvent::MouseInput {
            state: ElementState::Pressed,
            button: MouseButton::Left,
        })
    }
}

/// What the host's event loop hands to its handler.
#[derive(Clone, Copy, Debug, PartialEq, Eq, Structural)]
pub enum Event {
    /// An event of a window; `own_window` tells whether it is the window
    /// that the render state draws to.
    WindowEvent { own_window: bool, event: WindowEvent },
    /// All pending events were delivered.
    MainEventsCleared,
    /// A window has to be drawn again.
    RedrawRequested,
    /// Any event that is neither read nor acted upon.
    Other,
}

impl Event {
    /// A press of the left mouse button on the window that is drawn to.
    pub open spec fn is_click(self) -> bool {
        self matches Event::WindowEvent { own_window, event } && own_window && event.is_left_press()
    }
}

} // verus!
