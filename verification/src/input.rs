//! Input events in the form the camera understands: discrete key and button
//! transitions and pointer motion, stripped of everything window-system specific.

use vstd::prelude::*;

use crate::objects::camera::Direction;

verus! {

/// A physical key, by position on the keyboard. Only the keys that the camera
/// reacts to are told apart.
#[derive(Clone, Copy, Debug, PartialEq, Eq, Structural)]
pub enum Key {
    ControlLeft,
    ShiftLeft,
    KeyA,
    KeyD,
    KeyW,
    KeyS,
    F1,
    /// Any other key.
    Other,
}

/// A mouse button.
#[derive(Clone, Copy, Debug, PartialEq, Eq, Structural)]
pub enum MouseButton {
    Left,
    Right,
    Middle,
    /// Any other button.
    Other,
}

/// One event from the input source.
#[derive(Clone, Copy, Debug, PartialEq, Eq, Structural)]
pub enum InputEvent {
    /// A key went down (`pressed`) or up.
    KeyTransition { key: Key, pressed: bool },
    /// A mouse button went down (`pressed`) or up.
    MouseButtonTransition { button: MouseButton, pressed: bool },
    /// The pointer moved inside the window. Its coordinates stay with the caller.
    PointerMoved,
    /// Anything else the window system reports.
    Other,
}

impl Key {
    /// The movement that holding this key asks for, if it is a movement key:
    /// left control rises, left shift sinks, `A`/`D` strafe left/right and
    /// `W`/`S` go forward/backward.
    pub open spec fn spec_direction(self) -> Option<Direction> {
        match self {
            Key::ControlLeft => Some(Direction::Up),
            Key::ShiftLeft => Some(Direction::Down),
            Key::KeyA => Some(Direction::Left),
            Key::KeyD => Some(Direction::Right),
            Key::KeyW => Some(Direction::Forward),
            Key::KeyS => Some(Direction::Backward),
            Key::F1 => None,
            Key::Other => None,
        }
    }

    #[verifier::when_used_as_spec(spec_direction)]
    pub fn direction(self) -> (d: Option<Direction>)
        ensures
            d == self.spec_direction(),
    {
        match self {
            Key::ControlLeft => Some(Direction::Up),
            Key::ShiftLeft => Some(Direction::Down),
            Key::KeyA => Some(Direction::Left),
            Key::KeyD => Some(Direction::Right),
            Key::KeyW => Some(Direction::Forward),
            Key::KeyS => Some(Direction::Backward),
            Key::F1 => None,
            Key::Other => None,
        }
    }

    /// Whether this key is the "front view" shortcut.
    pub open spec fn spec_is_reset(self) -> bool {
        self == Key::F1
    }

    #[verifier::when_used_as_spec(spec_is_reset)]
    pub fn is_reset(self) -> (b: bool)
        ensures
            b == self.spec_is_reset(),
    {
        match self {
            Key::F1 => true,
            _ => false,
        }
    }
}

/// Each movement is asked for by exactly one key.
pub proof fn lemma_one_key_per_direction(a: Key, b: Key)
    requires
        a.spec_direction().is_some(),
        a.spec_direction() == b.spec_direction(),
    ensures
        a == b,
{
}

} // verus!
