//! Input events as the window system delivers them, one per call and in
//! arrival order.

use vstd::prelude::*;

verus! {

/// A pointer button.
#[derive(Clone, Copy, Debug, PartialEq, Eq, Structural)]
pub enum MouseButton {
    Left,
    Right,
    Middle,
    /// Any further button.
    Other,
}

/// What happened to a button or a key.
#[derive(Clone, Copy, Debug, PartialEq, Eq, Structural)]
pub enum Action {
    Release,
    Press,
    /// The key was held down long enough to repeat.
    Repeat,
}

/// A key, as far as the engine tells keys apart.
#[derive(Clone, Copy, Debug, PartialEq, Eq, Structural)]
pub enum Key {
    /// Switches gravity on and off.
    G,
    /// Asks the engine to stop.
    Escape,
    /// Any other key.
    Other,
}

/// One input event. Positions and offsets are in whole device units.
#[derive(Clone, Copy, Debug, PartialEq, Eq, Structural)]
pub enum InputEvent {
    /// The pointer moved to `(x, y)`.
    PointerMove { x: i64, y: i64 },
    /// A pointer button changed while the pointer was at `(x, y)`.
    Button { button: MouseButton, action: Action, x: i64, y: i64 },
    /// The wheel turned by `(dx, dy)`.
    Scroll { dx: i64, dy: i64 },
    /// A key changed.
    Key { key: Key, action: Action },
    /// The window was asked to close.
    Close,
}

} // verus!
