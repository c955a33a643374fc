//! Raw device events, normalized to plain values.
//!
//! The host translates windowing key callbacks and polled gamepad events
//! into [`GameEvent`] values before handing them to the mapping engine.
//! Analog magnitudes arrive on the 0..=255 scale: a gamepad value `v` in
//! [0.0, 1.0] is carried as `round(v * 255)`.

use vstd::prelude::*;

use crate::codes::ButtonCode;
use crate::codes::KeyCode;

verus! {

/// One raw input event, already normalized by the host.
#[derive(Debug, Clone, Copy, PartialEq, Eq, Structural)]
pub enum GameEvent {
    /// The window was asked to close.
    CloseRequested,
    /// A gamepad was plugged in.
    Connected,
    /// A gamepad was unplugged: every gamepad-driven slot resets to neutral.
    Disconnected,
    /// A keyboard key transition. `is_held` is the key's level state.
    Key { code: KeyCode, is_held: bool },
    /// A gamepad button (or stick pseudo-button) level, on the 0..=255 scale.
    Button { button: ButtonCode, value: u8 },
}

/// What the host loop should do after an event.
#[derive(Debug, Clone, Copy, PartialEq, Eq, Structural)]
pub enum AppFlow {
    Continue,
    Exit,
}

impl GameEvent {
    /// The default flow decision: only a close request ends the loop.
    pub fn default_flow(&self) -> (r: AppFlow)
        ensures
            r == (if self is CloseRequested {
                AppFlow::Exit
            } else {
                AppFlow::Continue
            }),
    {
        match self {
            GameEvent::CloseRequested => AppFlow::Exit,
            _ => AppFlow::Continue,
        }
    }
}

/// One analog stick half-pair: the four axes that are split into
/// pseudo-button events.
#[derive(Debug, Clone, Copy, PartialEq, Eq, Structural)]
pub enum StickAxis {
    LeftX,
    LeftY,
    RightX,
    RightY,
}

/// The pseudo-button codes that a stick axis feeds: first the positive
/// half-axis, then the negative one.
pub fn axis_button_codes(axis: StickAxis) -> (r: (ButtonCode, ButtonCode))
    ensures
        r == (match axis {
            StickAxis::LeftX => (ButtonCode::LeftStickRight, ButtonCode::LeftStickLeft),
            StickAxis::LeftY => (ButtonCode::LeftStickUp, ButtonCode::LeftStickDown),
            StickAxis::RightX => (ButtonCode::RightStickRight, ButtonCode::RightStickLeft),
            StickAxis::RightY => (ButtonCode::RightStickUp, ButtonCode::RightStickDown),
        }),
{
    match axis {
        StickAxis::LeftX => (ButtonCode::LeftStickRight, ButtonCode::LeftStickLeft),
        StickAxis::LeftY => (ButtonCode::LeftStickUp, ButtonCode::LeftStickDown),
        StickAxis::RightX => (ButtonCode::RightStickRight, ButtonCode::RightStickLeft),
        StickAxis::RightY => (ButtonCode::RightStickUp, ButtonCode::RightStickDown),
    }
}

/// Splits a signed axis magnitude (-255..=255) into the two half-axis
/// magnitudes: the positive side gets `max(0, value)`, the negative side
/// `max(0, -value)`.
pub fn split_axis_value(value: i16) -> (r: (u8, u8))
    requires
        -255 <= value <= 255,
    ensures
        r.0 == (if value >= 0 { value as int } else { 0 }),
        r.1 == (if value <= 0 { -value as int } else { 0 }),
{
    if value >= 0 {
        (value as u8, 0)
    } else {
        (0, (-value) as u8)
    }
}

} // verus!
