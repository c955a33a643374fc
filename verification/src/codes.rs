//! Identifiers for physical input sources.
//!
//! Keyboard keys are identified by a small enum: the keys this engine ever
//! distinguishes by name, plus `Other` for the rest of the keyboard, carried
//! as an opaque scancode supplied by the windowing layer.

use vstd::prelude::*;

verus! {

/// A physical keyboard key.
#[derive(Debug, Clone, Copy, PartialEq, Eq, Structural)]
pub enum KeyCode {
    ArrowRight,
    ArrowLeft,
    ArrowUp,
    ArrowDown,
    Space,
    KeyC,
    Enter,
    NumpadEnter,
    AltLeft,
    AltRight,
    /// Any other key, by an opaque code chosen by the host.
    Other(u32),
}

/// A gamepad button, or one of the eight pseudo-buttons that analog stick
/// axis events are translated into (one per stick half-axis).
#[derive(Debug, Clone, Copy, PartialEq, Eq, Structural)]
pub enum ButtonCode {
    LeftStickRight,
    LeftStickLeft,
    LeftStickUp,
    LeftStickDown,
    RightStickRight,
    RightStickLeft,
    RightStickUp,
    RightStickDown,
    DPadUp,
    DPadDown,
    DPadLeft,
    DPadRight,
    South,
    East,
    North,
    West,
    LeftTrigger,
    LeftTrigger2,
    RightTrigger,
    RightTrigger2,
    Start,
    Select,
    LeftThumb,
    RightThumb,
    C,
    Z,
    Mode,
    Unknown,
}

} // verus!
