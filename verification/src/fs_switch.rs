//! Fullscreen-toggle decision logic.
//!
//! Tracks the hold state of the toggle keys and decides, per event,
//! whether the host should switch the window's fullscreen mode: on the
//! rising edge of Enter or NumpadEnter. Performing the switch is the
//! host's job; this state machine only decides.

use vstd::prelude::*;

use crate::codes::KeyCode;
use crate::event::GameEvent;

verus! {

/// Hold state of the keys the fullscreen toggle watches.
#[derive(Debug, Clone, Copy, PartialEq, Eq, Structural, Default)]
pub struct FsSwitch {
    pub alt_left_is_held: bool,
    pub alt_right_is_held: bool,
    pub enter_is_held: bool,
    pub numpad_enter_is_held: bool,
}

impl FsSwitch {
    /// The state after one event: key events for the watched keys
    /// update their hold flags; everything else changes nothing.
    pub open spec fn spec_event(s: FsSwitch, e: GameEvent) -> FsSwitch {
        match e {
            GameEvent::Key { code, is_held } => match code {
                KeyCode::AltLeft => FsSwitch { alt_left_is_held: is_held, ..s },
                KeyCode::AltRight => FsSwitch { alt_right_is_held: is_held, ..s },
                KeyCode::Enter => FsSwitch { enter_is_held: is_held, ..s },
                KeyCode::NumpadEnter => FsSwitch { numpad_enter_is_held: is_held, ..s },
                _ => s,
            },
            _ => s,
        }
    }

    /// Whether the event is a rising edge of Enter or NumpadEnter:
    /// exactly then the host should switch fullscreen mode.
    pub open spec fn spec_switches(s: FsSwitch, e: GameEvent) -> bool {
        match e {
            GameEvent::Key { code, is_held } => match code {
                KeyCode::Enter => is_held && !s.enter_is_held,
                KeyCode::NumpadEnter => is_held && !s.numpad_enter_is_held,
                _ => false,
            },
            _ => false,
        }
    }

    /// No key held yet.
    pub fn new() -> (r: Self)
        ensures
            r == (FsSwitch {
                alt_left_is_held: false,
                alt_right_is_held: false,
                enter_is_held: false,
                numpad_enter_is_held: false,
            }),
    {
        FsSwitch {
            alt_left_is_held: false,
            alt_right_is_held: false,
            enter_is_held: false,
            numpad_enter_is_held: false,
        }
    }

    /// Ingests one event; returns whether the host should switch the
    /// window's fullscreen mode now.
    pub fn event(&mut self, event: &GameEvent) -> (switch: bool)
        ensures
            *final(self) == Self::spec_event(*old(self), *event),
            switch == Self::spec_switches(*old(self), *event),
    {
        let mut switch = false;
        match event {
            GameEvent::Key { code, is_held } => {
                match code {
                    KeyCode::AltLeft => {
                        self.alt_left_is_held = *is_held;
                    },
                    KeyCode::AltRight => {
                        self.alt_right_is_held = *is_held;
                    },
                    KeyCode::Enter => {
                        if *is_held && !self.enter_is_held {
                            switch = true;
                        }
                        self.enter_is_held = *is_held;
                    },
                    KeyCode::NumpadEnter => {
                        if *is_held && !self.numpad_enter_is_held {
                            switch = true;
                        }
                        self.numpad_enter_is_held = *is_held;
                    },
                    _ => {},
                }
            },
            _ => {},
        }
        switch
    }
}

} // verus!
