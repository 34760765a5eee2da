//! The window events the host reacts to, as plain values.

use vstd::prelude::*;
use crate::size::PhysicalSize;

verus! {

/// The physical keys the host tells apart.
#[derive(Clone, Copy, Debug, PartialEq, Eq, Structural)]
pub enum PhysicalKey {
    Escape,
    Other,
}

/// Whether a key went down or came up.
#[derive(Clone, Copy, Debug, PartialEq, Eq, Structural)]
pub enum KeyState {
    Pressed,
    Released,
}

/// An event of the host's window.
#[derive(Clone, Copy, Debug, PartialEq, Eq, Structural)]
pub enum WindowEvent {
    CloseRequested,
    KeyboardInput { key: PhysicalKey, state: KeyState, repeat: bool },
    Resized(PhysicalSize),
    RedrawRequested,
    Other,
}

impl WindowEvent {
    /// The two events that end the application: a request to close the
    /// window, and the escape key going down, a key repeat not counted.
    pub open spec fn requests_exit(self) -> bool {
        match self {
            WindowEvent::CloseRequested => true,
            WindowEvent::KeyboardInput { key, state, repeat } => key == PhysicalKey::Escape
                && state == KeyState::Pressed && !repeat,
            _ => false,
        }
    }

    /// Whether the event ends the application.
    pub fn is_exit_request(&self) -> (r: bool)
        ensures
            r == self.requests_exit(),
    {
        match self {
            WindowEvent::CloseRequested => true,
            WindowEvent::KeyboardInput { key, state, repeat } => {
                let escape = match key {
                    PhysicalKey::Escape => true,
                    PhysicalKey::Other => false,
                };
                let pressed = match state {
                    KeyState::Pressed => true,
                    KeyState::Released => false,
                };
                escape && pressed && !*repeat
            },
            _ => false,
        }
    }
}

} // verus!
