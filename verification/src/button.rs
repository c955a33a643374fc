//! The button edge-state machine.
//!
//! A button control accumulates, per bound slot, a hold bit in a 32-bit
//! mask. Events set or clear one bit; a rising edge latches the
//! `is_pressed` flag. The once-per-frame mapping pass reads the three
//! flags and consumes the press edge.

use vstd::prelude::*;

use crate::HELD_THRESHOLD;
use crate::bindings::ButtonBindings;
use crate::bindings::copy_vec;
use crate::bindings::find_button_index;
use crate::bindings::find_key_index;
use crate::codes::ButtonCode;
use crate::codes::KeyCode;
use crate::event::GameEvent;
use crate::stick::MapperContext;
use crate::stick::in_cone;

verus! {

/// A button control's per-frame state: level, rising edge and falling
/// edge. The two edge flags are valid for exactly one mapping pass.
#[derive(Debug, Clone, Copy, PartialEq, Eq, Structural, Default)]
pub struct Button {
    pub is_held: bool,
    pub is_pressed: bool,
    pub is_released: bool,
}

/// The accumulated state of one button control between mapping passes.
#[derive(Debug, Clone, PartialEq)]
pub struct ButtonHandlerState {
    /// Bound keys; the key at position `i` drives bit `i` of the mask.
    pub keys: Vec<KeyCode>,
    /// Bound buttons; the button at position `i` drives bit
    /// `keys.len() + i` of the mask.
    pub buttons: Vec<ButtonCode>,
    /// One hold bit per slot.
    pub held_bindings: u32,
    /// Latched rising-edge flag, consumed by the next mapping pass.
    pub is_pressed: bool,
    /// Whether any slot was held at the previous mapping pass.
    pub was_held: bool,
}

/// The mask with exactly the slot's bit set.
pub open spec fn slot_mask(slot: int) -> u32 {
    1u32 << (slot as u32)
}

/// Whether a digital reading of a gamepad button event counts as held.
/// Plain buttons are thresholded at half intensity; the eight stick
/// pseudo-buttons additionally require the stick's direction to lie in
/// the cone around their cardinal axis.
pub open spec fn spec_effective_held(code: ButtonCode, value: u8, ctx: MapperContext) -> bool {
    let thr = value >= HELD_THRESHOLD;
    let l = ctx.left_stick_dir;
    let r = ctx.right_stick_dir;
    match code {
        ButtonCode::LeftStickRight => thr && in_cone(l.x as int, l.y as int),
        ButtonCode::LeftStickLeft => thr && in_cone(-(l.x as int), l.y as int),
        ButtonCode::LeftStickUp => thr && in_cone(l.y as int, l.x as int),
        ButtonCode::LeftStickDown => thr && in_cone(-(l.y as int), l.x as int),
        ButtonCode::RightStickRight => thr && in_cone(r.x as int, r.y as int),
        ButtonCode::RightStickLeft => thr && in_cone(-(r.x as int), r.y as int),
        ButtonCode::RightStickUp => thr && in_cone(r.y as int, r.x as int),
        ButtonCode::RightStickDown => thr && in_cone(-(r.y as int), r.x as int),
        _ => thr,
    }
}

impl ButtonHandlerState {
    /// Sources bound at most once each, and at most 32 slots.
    pub open spec fn wf(self) -> bool {
        &&& forall|i: int, j: int|
            0 <= i < j < self.keys@.len() ==> self.keys@[i] != self.keys@[j]
        &&& forall|i: int, j: int|
            0 <= i < j < self.buttons@.len() ==> self.buttons@[i] != self.buttons@[j]
        &&& self.keys@.len() + self.buttons@.len() <= 32
    }

    /// The state after one slot reading: the slot's bit is set or
    /// cleared, and a rising edge latches the pressed flag.
    pub open spec fn spec_apply_slot(s: ButtonHandlerState, slot: int, held: bool) -> ButtonHandlerState {
        let mask = slot_mask(slot);
        ButtonHandlerState {
            is_pressed: s.is_pressed || (held && s.held_bindings & mask == 0),
            held_bindings: if held {
                s.held_bindings | mask
            } else {
                s.held_bindings & !mask
            },
            ..s
        }
    }

    /// The state after one event. Events naming no bound slot change
    /// nothing; a disconnect clears every hold bit at once.
    pub open spec fn spec_event(s: ButtonHandlerState, e: GameEvent, ctx: MapperContext) -> ButtonHandlerState {
        match e {
            GameEvent::CloseRequested => s,
            GameEvent::Connected => s,
            GameEvent::Disconnected => ButtonHandlerState { held_bindings: 0, ..s },
            GameEvent::Key { code, is_held } => match s.keys@.index_of_first(code) {
                Some(i) => Self::spec_apply_slot(s, i, is_held),
                None => s,
            },
            GameEvent::Button { button, value } => match s.buttons@.index_of_first(button) {
                Some(i) => Self::spec_apply_slot(
                    s,
                    s.keys@.len() + i,
                    spec_effective_held(button, value, ctx),
                ),
                None => s,
            },
        }
    }

    /// What a mapping pass returns: the level now, the latched press
    /// edge, and the falling edge against the previous pass.
    pub open spec fn spec_next_button(s: ButtonHandlerState) -> Button {
        Button {
            is_held: s.held_bindings != 0,
            is_pressed: s.is_pressed,
            is_released: s.was_held && s.held_bindings == 0,
        }
    }

    /// The state a mapping pass leaves behind: the press edge is
    /// consumed and the level is remembered.
    pub open spec fn spec_after_next(s: ButtonHandlerState) -> ButtonHandlerState {
        ButtonHandlerState {
            is_pressed: false,
            was_held: s.held_bindings != 0,
            ..s
        }
    }

    /// Builds the slot assignment for a binding set: keys take the low
    /// slots, gamepad buttons continue after them. Nothing is held yet.
    pub fn new(bindings: &ButtonBindings) -> (r: Self)
        requires
            bindings.wf(),
        ensures
            r.wf(),
            r.keys@ == bindings.keys@,
            r.buttons@ == bindings.buttons@,
            r.held_bindings == 0,
            !r.is_pressed,
            !r.was_held,
    {
        ButtonHandlerState {
            keys: copy_vec(&bindings.keys),
            buttons: copy_vec(&bindings.buttons),
            held_bindings: 0,
            is_pressed: false,
            was_held: false,
        }
    }

    /// Ingests one event, updating the slot the event names, if any.
    pub fn event(&mut self, event: &GameEvent, ctx: &MapperContext)
        requires
            old(self).wf(),
            ctx.wf(),
        ensures
            final(self).wf(),
            *final(self) == Self::spec_event(*old(self), *event, *ctx),
    {
        let slot: usize;
        let held: bool;
        match event {
            GameEvent::CloseRequested => {
                return ;
            },
            GameEvent::Connected => {
                return ;
            },
            GameEvent::Disconnected => {
                self.held_bindings = 0;
                return ;
            },
            GameEvent::Key { code, is_held } => {
                match find_key_index(&self.keys, *code) {
                    Some(i) => {
                        proof {
                            self.keys@.index_of_first_ensures(*code);
                        }
                        slot = i;
                        held = *is_held;
                    },
                    None => {
                        return ;
                    },
                }
            },
            GameEvent::Button { button, value } => {
                match find_button_index(&self.buttons, *button) {
                    Some(i) => {
                        proof {
                            self.buttons@.index_of_first_ensures(*button);
                        }
                        slot = self.keys.len() + i;
                        held = effective_held(*button, *value, ctx);
                    },
                    None => {
                        return ;
                    },
                }
            },
        }
        let mask: u32 = 1u32 << (slot as u32);
        if held && self.held_bindings & mask == 0 {
            self.is_pressed = true;
        }
        self.held_bindings = if held {
            self.held_bindings | mask
        } else {
            self.held_bindings & !mask
        };
    }

    /// The once-per-frame mapping pass: reports the three flags, then
    /// consumes the press edge and remembers the level.
    pub fn next_state(&mut self) -> (r: Button)
        requires
            old(self).wf(),
        ensures
            final(self).wf(),
            r == Self::spec_next_button(*old(self)),
            *final(self) == Self::spec_after_next(*old(self)),
    {
        let r = Button {
            is_held: self.held_bindings != 0,
            is_pressed: self.is_pressed,
            is_released: self.was_held && self.held_bindings == 0,
        };
        self.was_held = r.is_held;
        self.is_pressed = false;
        r
    }
}

/// Readings of two distinct slots commute: each one's hold bit and
/// rising edge depend only on its own slot's bit.
proof fn lemma_apply_slot_commutes(s: ButtonHandlerState, slot1: int, held1: bool, slot2: int, held2: bool)
    requires
        0 <= slot1 < 32,
        0 <= slot2 < 32,
        slot1 != slot2,
    ensures
        ButtonHandlerState::spec_apply_slot(
            ButtonHandlerState::spec_apply_slot(s, slot1, held1),
            slot2,
            held2,
        ) == ButtonHandlerState::spec_apply_slot(
            ButtonHandlerState::spec_apply_slot(s, slot2, held2),
            slot1,
            held1,
        ),
{
    let u1 = slot1 as u32;
    let u2 = slot2 as u32;
    let b1 = slot_mask(slot1);
    let b2 = slot_mask(slot2);
    let m = s.held_bindings;
    assert((1u32 << u1) & (1u32 << u2) == 0) by (bit_vector)
        requires
            u1 < 32,
            u2 < 32,
            u1 != u2,
    ;
    assert((m | b1) | b2 == (m | b2) | b1 && (m | b1) & !b2 == (m & !b2) | b1 && (m & !b1) | b2 == (
    m | b2) & !b1 && (m & !b1) & !b2 == (m & !b2) & !b1) by (bit_vector)
        requires
            b1 & b2 == 0,
    ;
    assert((m | b1) & b2 == m & b2 && (m & !b1) & b2 == m & b2 && (m | b2) & b1 == m & b1 && (m
        & !b2) & b1 == m & b1) by (bit_vector)
        requires
            b1 & b2 == 0,
    ;
}

/// Event fusion across sources: a keyboard event and a gamepad button
/// event always drive distinct slots, so their arrival order within a
/// frame does not affect the control's state.
pub proof fn lemma_button_cross_source_order_irrelevant(
    s: ButtonHandlerState,
    code: KeyCode,
    is_held: bool,
    btn: ButtonCode,
    value: u8,
    ctx: MapperContext,
)
    requires
        s.wf(),
    ensures
        ({
            let key_event = GameEvent::Key { code, is_held };
            let button_event = GameEvent::Button { button: btn, value };
            ButtonHandlerState::spec_event(
                ButtonHandlerState::spec_event(s, key_event, ctx),
                button_event,
                ctx,
            ) == ButtonHandlerState::spec_event(
                ButtonHandlerState::spec_event(s, button_event, ctx),
                key_event,
                ctx,
            )
        }),
{
    s.keys@.index_of_first_ensures(code);
    s.buttons@.index_of_first_ensures(btn);
    if let (Some(i), Some(j)) = (s.keys@.index_of_first(code), s.buttons@.index_of_first(btn)) {
        lemma_apply_slot_commutes(
            s,
            i,
            is_held,
            s.keys@.len() + j,
            spec_effective_held(btn, value, ctx),
        );
    }
}

/// A mapping pass consumes the press edge exactly once: whatever the
/// state, a second pass with no event in between reports no press.
pub proof fn lemma_press_edge_consumed_once(s: ButtonHandlerState)
    ensures
        !ButtonHandlerState::spec_next_button(ButtonHandlerState::spec_after_next(s)).is_pressed,
{
}

/// A disconnect clears every hold bit at once: the next mapping pass
/// reports the control not held, and released exactly when the previous
/// pass saw it held.
pub proof fn lemma_disconnect_clears(s: ButtonHandlerState, ctx: MapperContext)
    ensures
        ({
            let b = ButtonHandlerState::spec_next_button(
                ButtonHandlerState::spec_event(s, GameEvent::Disconnected, ctx),
            );
            &&& !b.is_held
            &&& b.is_released == s.was_held
            &&& b.is_pressed == s.is_pressed
        }),
{
}

/// Pressing and releasing a bound key twice within one frame still
/// reports a press on that frame's mapping pass, even though the key's
/// hold bit ends clear: the edge is latched, not derived from levels.
/// The level reported is the final raw state (the old mask with this
/// key's bit cleared), and a release is reported exactly when the
/// previous pass saw the control held and no other slot remains held.
pub proof fn lemma_press_release_twice(s: ButtonHandlerState, code: KeyCode, ctx: MapperContext)
    requires
        s.wf(),
        s.keys@.contains(code),
    ensures
        ({
            let press = GameEvent::Key { code, is_held: true };
            let release = GameEvent::Key { code, is_held: false };
            let s4 = ButtonHandlerState::spec_event(
                ButtonHandlerState::spec_event(
                    ButtonHandlerState::spec_event(
                        ButtonHandlerState::spec_event(s, press, ctx),
                        release,
                        ctx,
                    ),
                    press,
                    ctx,
                ),
                release,
                ctx,
            );
            let b = ButtonHandlerState::spec_next_button(s4);
            let cleared = s.held_bindings & !slot_mask(s.keys@.index_of_first(code)->Some_0);
            &&& b.is_pressed
            &&& b.is_held == (cleared != 0)
            &&& b.is_released == (s.was_held && cleared == 0)
        }),
{
    s.keys@.index_of_first_ensures(code);
    let idx = s.keys@.index_of_first(code)->Some_0;
    let m = s.held_bindings;
    let b = slot_mask(idx);
    assert(((m | b) & !b) & b == 0) by (bit_vector);
    assert(((((m | b) & !b) | b) & !b) == m & !b) by (bit_vector);
}

/// Executable twin of [`spec_effective_held`].
fn effective_held(code: ButtonCode, value: u8, ctx: &MapperContext) -> (r: bool)
    requires
        ctx.wf(),
    ensures
        r == spec_effective_held(code, value, *ctx),
{
    let thr = value >= HELD_THRESHOLD;
    match code {
        ButtonCode::LeftStickRight => thr && ctx.left_stick_dir.in_cone_right(),
        ButtonCode::LeftStickLeft => thr && ctx.left_stick_dir.in_cone_left(),
        ButtonCode::LeftStickUp => thr && ctx.left_stick_dir.in_cone_up(),
        ButtonCode::LeftStickDown => thr && ctx.left_stick_dir.in_cone_down(),
        ButtonCode::RightStickRight => thr && ctx.right_stick_dir.in_cone_right(),
        ButtonCode::RightStickLeft => thr && ctx.right_stick_dir.in_cone_left(),
        ButtonCode::RightStickUp => thr && ctx.right_stick_dir.in_cone_up(),
        ButtonCode::RightStickDown => thr && ctx.right_stick_dir.in_cone_down(),
        _ => thr,
    }
}

} // verus!
