//! Derived analog-stick direction state.
//!
//! Each stick accumulates four directional magnitudes (right, left, up,
//! down, each 0..=255) fed by the stick pseudo-button events. The stick's
//! direction is the vector `(right - left, up - down)`. A directional
//! pseudo-button fires only inside an eighth-of-a-circle cone around its
//! cardinal axis: the normalized direction's dot product with that axis
//! must reach 3827/10000 (an approximation of sin 22.5 degrees). With
//! `d = (x, y)`, the dot with the positive x axis is `x / |d|`, so the
//! test `x / |d| >= 3827 / 10000` is stated exactly over integers as
//! `x > 0 && (10000 * x)^2 >= 3827^2 * (x^2 + y^2)`.

use vstd::prelude::*;

use crate::codes::ButtonCode;
use crate::event::GameEvent;

verus! {

/// Whether the vector `(x, y)` lies in the cone around the positive x
/// axis: `x / |(x, y)| >= 3827 / 10000`. The zero vector lies in no cone.
/// The two squared constants are `10000 * 10000` and `3827 * 3827`.
pub open spec fn in_cone(x: int, y: int) -> bool {
    x > 0 && 100000000 * (x * x) >= 14645929 * (x * x + y * y)
}

/// An un-normalized stick direction vector; each component is a
/// difference of two 0..=255 magnitudes.
#[derive(Debug, Clone, Copy, PartialEq, Eq, Structural)]
pub struct StickDir {
    pub x: i16,
    pub y: i16,
}

impl StickDir {
    /// Component bounds that every direction derived from magnitudes obeys.
    pub open spec fn wf(self) -> bool {
        &&& -255 <= self.x <= 255
        &&& -255 <= self.y <= 255
    }

    /// The stick at rest.
    pub fn zero() -> (r: Self)
        ensures
            r.wf(),
            r.x == 0,
            r.y == 0,
    {
        StickDir { x: 0, y: 0 }
    }

    /// Whether this direction lies in the cone around the positive x axis.
    pub fn in_cone_right(&self) -> (r: bool)
        requires
            self.wf(),
        ensures
            r == in_cone(self.x as int, self.y as int),
    {
        cone_check(self.x as i64, self.y as i64)
    }

    /// Whether this direction lies in the cone around the negative x axis.
    pub fn in_cone_left(&self) -> (r: bool)
        requires
            self.wf(),
        ensures
            r == in_cone(-(self.x as int), self.y as int),
    {
        cone_check(-(self.x as i64), self.y as i64)
    }

    /// Whether this direction lies in the cone around the positive y axis.
    pub fn in_cone_up(&self) -> (r: bool)
        requires
            self.wf(),
        ensures
            r == in_cone(self.y as int, self.x as int),
    {
        cone_check(self.y as i64, self.x as i64)
    }

    /// Whether this direction lies in the cone around the negative y axis.
    pub fn in_cone_down(&self) -> (r: bool)
        requires
            self.wf(),
        ensures
            r == in_cone(-(self.y as int), self.x as int),
    {
        cone_check(-(self.y as i64), self.x as i64)
    }
}

/// Opposite cones never hold together: a direction cannot point both
/// ways along one axis.
pub proof fn lemma_opposite_cones_exclusive(x: int, y: int)
    ensures
        !(in_cone(x, y) && in_cone(-x, y)),
{
}

/// With the opposing half-axis at rest, the cone never rejects a
/// reading that meets the half-intensity threshold: the net component
/// along the axis is then the reading itself, and a component of at
/// least 128 lies inside the cone whatever the cross component is.
/// The cone only bites while both half-axes of one axis are nonzero.
pub proof fn lemma_threshold_in_cone_when_opposite_at_rest(x: int, y: int)
    requires
        128 <= x <= 255,
        -255 <= y <= 255,
    ensures
        in_cone(x, y),
{
    assert(100000000 * (x * x) >= 14645929 * (x * x + y * y)) by (nonlinear_arith)
        requires
            128 <= x <= 255,
            -255 <= y <= 255,
    ;
}

/// Decides the cone test exactly, in 64-bit integer arithmetic.
fn cone_check(x: i64, y: i64) -> (r: bool)
    requires
        -255 <= x <= 255,
        -255 <= y <= 255,
    ensures
        r == in_cone(x as int, y as int),
{
    if x <= 0 {
        false
    } else {
        proof {
            assert(0 <= x * x <= 255 * 255 && 0 <= y * y <= 255 * 255) by (nonlinear_arith)
                requires
                    -255 <= x <= 255,
                    -255 <= y <= 255,
            ;
        }
        let x2: i64 = x * x;
        let y2: i64 = y * y;
        100000000 * x2 >= 14645929 * (x2 + y2)
    }
}

/// The directional context handed to every control on every event: the
/// most recently derived direction of each stick.
#[derive(Debug, Clone, Copy, PartialEq, Eq, Structural)]
pub struct MapperContext {
    pub left_stick_dir: StickDir,
    pub right_stick_dir: StickDir,
}

impl MapperContext {
    pub open spec fn wf(self) -> bool {
        self.left_stick_dir.wf() && self.right_stick_dir.wf()
    }

    /// Both sticks at rest.
    pub fn neutral() -> (r: Self)
        ensures
            r.wf(),
            r.left_stick_dir.x == 0,
            r.left_stick_dir.y == 0,
            r.right_stick_dir.x == 0,
            r.right_stick_dir.y == 0,
    {
        MapperContext { left_stick_dir: StickDir::zero(), right_stick_dir: StickDir::zero() }
    }
}

/// The eight accumulated half-axis magnitudes from which stick directions
/// are derived.
#[derive(Debug, Clone, Copy, PartialEq, Eq, Structural)]
pub struct StickHandler {
    pub left_stick_right: u8,
    pub left_stick_left: u8,
    pub left_stick_up: u8,
    pub left_stick_down: u8,
    pub right_stick_right: u8,
    pub right_stick_left: u8,
    pub right_stick_up: u8,
    pub right_stick_down: u8,
}

impl StickHandler {
    /// The state after one event: a stick pseudo-button event overwrites
    /// its half-axis magnitude; every other event changes nothing.
    pub open spec fn spec_event(s: StickHandler, e: GameEvent) -> StickHandler {
        match e {
            GameEvent::Button { button, value } => match button {
                ButtonCode::LeftStickRight => StickHandler { left_stick_right: value, ..s },
                ButtonCode::LeftStickLeft => StickHandler { left_stick_left: value, ..s },
                ButtonCode::LeftStickUp => StickHandler { left_stick_up: value, ..s },
                ButtonCode::LeftStickDown => StickHandler { left_stick_down: value, ..s },
                ButtonCode::RightStickRight => StickHandler { right_stick_right: value, ..s },
                ButtonCode::RightStickLeft => StickHandler { right_stick_left: value, ..s },
                ButtonCode::RightStickUp => StickHandler { right_stick_up: value, ..s },
                ButtonCode::RightStickDown => StickHandler { right_stick_down: value, ..s },
                _ => s,
            },
            _ => s,
        }
    }

    /// The left stick's direction vector `(right - left, up - down)`.
    pub open spec fn spec_left_dir(s: StickHandler) -> StickDir {
        StickDir {
            x: (s.left_stick_right - s.left_stick_left) as i16,
            y: (s.left_stick_up - s.left_stick_down) as i16,
        }
    }

    /// The right stick's direction vector `(right - left, up - down)`.
    pub open spec fn spec_right_dir(s: StickHandler) -> StickDir {
        StickDir {
            x: (s.right_stick_right - s.right_stick_left) as i16,
            y: (s.right_stick_up - s.right_stick_down) as i16,
        }
    }

    /// The directional context derived from this state.
    pub open spec fn spec_ctx(s: StickHandler) -> MapperContext {
        MapperContext {
            left_stick_dir: Self::spec_left_dir(s),
            right_stick_dir: Self::spec_right_dir(s),
        }
    }

    /// Every magnitude at rest.
    pub open spec fn spec_at_rest() -> StickHandler {
        StickHandler {
            left_stick_right: 0u8,
            left_stick_left: 0u8,
            left_stick_up: 0u8,
            left_stick_down: 0u8,
            right_stick_right: 0u8,
            right_stick_left: 0u8,
            right_stick_up: 0u8,
            right_stick_down: 0u8,
        }
    }

    /// All magnitudes at rest.
    pub fn new() -> (r: Self)
        ensures
            r == Self::spec_at_rest(),
    {
        StickHandler {
            left_stick_right: 0,
            left_stick_left: 0,
            left_stick_up: 0,
            left_stick_down: 0,
            right_stick_right: 0,
            right_stick_left: 0,
            right_stick_up: 0,
            right_stick_down: 0,
        }
    }

    /// Ingests one event.
    pub fn event(&mut self, event: &GameEvent)
        ensures
            *final(self) == Self::spec_event(*old(self), *event),
    {
        match event {
            GameEvent::Button { button, value } => match button {
                ButtonCode::LeftStickRight => self.left_stick_right = *value,
                ButtonCode::LeftStickLeft => self.left_stick_left = *value,
                ButtonCode::LeftStickUp => self.left_stick_up = *value,
                ButtonCode::LeftStickDown => self.left_stick_down = *value,
                ButtonCode::RightStickRight => self.right_stick_right = *value,
                ButtonCode::RightStickLeft => self.right_stick_left = *value,
                ButtonCode::RightStickUp => self.right_stick_up = *value,
                ButtonCode::RightStickDown => self.right_stick_down = *value,
                _ => {},
            },
            _ => {},
        }
    }

    /// The left stick's direction vector.
    pub fn left_stick_dir(&self) -> (r: StickDir)
        ensures
            r == Self::spec_left_dir(*self),
            r.wf(),
    {
        StickDir {
            x: self.left_stick_right as i16 - self.left_stick_left as i16,
            y: self.left_stick_up as i16 - self.left_stick_down as i16,
        }
    }

    /// The right stick's direction vector.
    pub fn right_stick_dir(&self) -> (r: StickDir)
        ensures
            r == Self::spec_right_dir(*self),
            r.wf(),
    {
        StickDir {
            x: self.right_stick_right as i16 - self.right_stick_left as i16,
            y: self.right_stick_up as i16 - self.right_stick_down as i16,
        }
    }

    /// The directional context derived from the current magnitudes.
    pub fn ctx(&self) -> (r: MapperContext)
        ensures
            r == Self::spec_ctx(*self),
            r.wf(),
    {
        MapperContext { left_stick_dir: self.left_stick_dir(), right_stick_dir: self.right_stick_dir() }
    }
}

} // verus!
