//! Events of a mouse.
use vstd::prelude::*;

verus! {

/// A position or a movement on the plane of the pointer, in device units.
#[derive(Clone, Copy, Debug, PartialEq, Eq)]
pub struct Vector {
    pub x: i64,
    pub y: i64,
}

/// An input source that is a mouse.
pub trait Mouse {
    /// The position of the pointer now.
    fn position(&self) -> Vector;
}

/// A mouse button.
#[derive(Clone, Copy, Debug)]
pub enum Button {
    /// The left or primary button.
    Left,
    /// The right or secondary button.
    Right,
    /// The middle or tertiary button, often the wheel pressed down.
    Middle,
    /// A further button: index zero is the fourth button.
    Auxiliary(u8),
}

/// A change of the state of a mouse.
#[derive(Clone, Copy, Debug)]
pub enum Action {
    /// A button went from pressed to released.
    Up(Button),
    /// A button went from released to pressed.
    Down(Button),
    /// The pointer moved.
    Move(Vector),
}

/// A mouse event.
#[derive(Clone, Copy, Debug)]
pub struct Event {
    /// What happened.
    pub action: Action,
    /// Where the pointer was when it happened.
    pub position: Vector,
}

} // verus!
