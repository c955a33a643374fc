//! The scalar value accumulator.
//!
//! A value control keeps one byte of analog intensity per bound slot.
//! Events overwrite one slot; the mapping pass sums all slots and
//! hard-clamps the sum to full intensity. Unlike a button, a value
//! control has no edge state: mapping reads without resetting anything.

use vstd::prelude::*;

use crate::bindings::ButtonBindings;
use crate::bindings::copy_vec;
use crate::bindings::find_button_index;
use crate::bindings::find_key_index;
use crate::codes::ButtonCode;
use crate::codes::KeyCode;
use crate::event::GameEvent;
use crate::stick::MapperContext;
use vstd::pervasive::VecAdditionalExecFns;

verus! {

/// A scalar control state on the 0..=255 scale: `v` stands for the
/// fraction `v / 255` of full intensity.
#[derive(Debug, Clone, Copy, PartialEq, Eq, Structural, Default)]
pub struct Value(pub u8);

/// The accumulated state of one value control.
#[derive(Debug, Clone, PartialEq)]
pub struct ValueHandlerState {
    /// Bound keys; the key at position `i` drives slot `i`.
    pub keys: Vec<KeyCode>,
    /// Bound buttons; the button at position `i` drives slot
    /// `keys.len() + i`.
    pub buttons: Vec<ButtonCode>,
    /// One accumulated intensity byte per slot.
    pub binding_values: Vec<u8>,
}

/// The sum of all slot bytes, as an unbounded integer.
pub open spec fn sum_slots(vals: Seq<u8>) -> int
    decreases vals.len(),
{
    if vals.len() == 0 {
        0
    } else {
        sum_slots(vals.drop_last()) + vals.last()
    }
}

impl ValueHandlerState {
    /// Sources bound at most once each, at most 32 slots, and exactly
    /// one intensity byte per possible slot.
    pub open spec fn wf(self) -> bool {
        &&& forall|i: int, j: int|
            0 <= i < j < self.keys@.len() ==> self.keys@[i] != self.keys@[j]
        &&& forall|i: int, j: int|
            0 <= i < j < self.buttons@.len() ==> self.buttons@[i] != self.buttons@[j]
        &&& self.keys@.len() + self.buttons@.len() <= 32
        &&& self.binding_values@.len() == 32
    }

    /// The slot bytes after one event: a key event saturates or clears
    /// its slot, a gamepad event overwrites its slot with the event's
    /// intensity, a disconnect zeroes every slot, and anything else
    /// changes nothing.
    pub open spec fn spec_values_step(
        keys: Seq<KeyCode>,
        buttons: Seq<ButtonCode>,
        vals: Seq<u8>,
        e: GameEvent,
    ) -> Seq<u8> {
        match e {
            GameEvent::CloseRequested => vals,
            GameEvent::Connected => vals,
            GameEvent::Disconnected => Seq::new(32nat, |i: int| 0u8),
            GameEvent::Key { code, is_held } => match keys.index_of_first(code) {
                Some(i) => vals.update(
                    i,
                    if is_held {
                        255u8
                    } else {
                        0u8
                    },
                ),
                None => vals,
            },
            GameEvent::Button { button, value } => match buttons.index_of_first(button) {
                Some(i) => vals.update(keys.len() + i, value),
                None => vals,
            },
        }
    }

    /// [`Self::spec_values_step`] applied to a handler's own fields.
    pub open spec fn spec_values_event(s: ValueHandlerState, e: GameEvent) -> Seq<u8> {
        Self::spec_values_step(s.keys@, s.buttons@, s.binding_values@, e)
    }

    /// What a mapping pass returns: the slot sum, hard-clamped to full
    /// intensity.
    pub open spec fn spec_next_value(s: ValueHandlerState) -> Value {
        if sum_slots(s.binding_values@) > 255 {
            Value(255u8)
        } else {
            Value(sum_slots(s.binding_values@) as u8)
        }
    }

    /// How one event steps a value handler: the slot assignment is
    /// untouched and the slot bytes change as [`Self::spec_values_event`]
    /// says.
    pub open spec fn spec_steps(pre: ValueHandlerState, post: ValueHandlerState, e: GameEvent) -> bool {
        &&& post.keys@ == pre.keys@
        &&& post.buttons@ == pre.buttons@
        &&& post.binding_values@ == Self::spec_values_event(pre, e)
    }

    /// Builds the slot assignment for a binding set; every slot starts
    /// at zero intensity.
    pub fn new(bindings: &ButtonBindings) -> (r: Self)
        requires
            bindings.wf(),
        ensures
            r.wf(),
            r.keys@ == bindings.keys@,
            r.buttons@ == bindings.buttons@,
            r.binding_values@ =~= Seq::new(32nat, |i: int| 0u8),
    {
        ValueHandlerState {
            keys: copy_vec(&bindings.keys),
            buttons: copy_vec(&bindings.buttons),
            binding_values: zeroed_slots(),
        }
    }

    /// Ingests one event, overwriting the slot the event names, if any.
    /// The stick context plays no part: value controls read raw
    /// intensities.
    pub fn event(&mut self, event: &GameEvent, _ctx: &MapperContext)
        requires
            old(self).wf(),
        ensures
            final(self).wf(),
            final(self).keys@ == old(self).keys@,
            final(self).buttons@ == old(self).buttons@,
            final(self).binding_values@ == Self::spec_values_event(*old(self), *event),
    {
        match event {
            GameEvent::CloseRequested => {},
            GameEvent::Connected => {},
            GameEvent::Disconnected => {
                self.binding_values = zeroed_slots();
            },
            GameEvent::Key { code, is_held } => {
                match find_key_index(&self.keys, *code) {
                    Some(i) => {
                        proof {
                            self.keys@.index_of_first_ensures(*code);
                        }
                        self.binding_values.set(i, if *is_held { 255 } else { 0 });
                    },
                    None => {},
                }
            },
            GameEvent::Button { button, value } => {
                match find_button_index(&self.buttons, *button) {
                    Some(i) => {
                        proof {
                            self.buttons@.index_of_first_ensures(*button);
                        }
                        self.binding_values.set(self.keys.len() + i, *value);
                    },
                    None => {},
                }
            },
        }
    }

    /// The once-per-frame mapping pass: sums the slots and clamps.
    /// The state is left exactly as it was — mapping a value control
    /// any number of times returns the same reading.
    pub fn next_state(&mut self) -> (r: Value)
        requires
            old(self).wf(),
        ensures
            final(self).wf(),
            *final(self) == *old(self),
            r == Self::spec_next_value(*old(self)),
            r.0 <= 255,
    {
        let ghost vals = self.binding_values@;
        let mut acc: u32 = 0;
        let mut i: usize = 0;
        while i < self.binding_values.len()
            invariant
                0 <= i <= vals.len(),
                vals.len() == 32,
                self.binding_values@ == vals,
                acc == sum_slots(vals.subrange(0, i as int)),
                acc <= 255 * i,
        decreases vals.len() - i,
        {
            proof {
                lemma_sum_prefix_step(vals, i as int);
            }
            acc = acc + self.binding_values[i] as u32;
            i += 1;
        }
        proof {
            assert(vals.subrange(0, 32) =~= vals);
        }
        if acc > 255 {
            Value(255)
        } else {
            Value(acc as u8)
        }
    }
}

/// A value reading is always within the unit range: never below zero
/// intensity, never above full intensity, whatever events arrived.
pub proof fn lemma_value_reading_clamped(s: ValueHandlerState)
    ensures
        0 <= ValueHandlerState::spec_next_value(s).0 <= 255,
{
}

/// Event fusion across sources: a keyboard event and a gamepad button
/// event always drive distinct slots, so their arrival order within a
/// frame does not affect the slot bytes.
pub proof fn lemma_value_cross_source_order_irrelevant(
    keys: Seq<KeyCode>,
    buttons: Seq<ButtonCode>,
    vals: Seq<u8>,
    code: KeyCode,
    is_held: bool,
    btn: ButtonCode,
    value: u8,
)
    requires
        keys.len() + buttons.len() <= 32,
        vals.len() == 32,
    ensures
        ({
            let key_event = GameEvent::Key { code, is_held };
            let button_event = GameEvent::Button { button: btn, value };
            ValueHandlerState::spec_values_step(
                keys,
                buttons,
                ValueHandlerState::spec_values_step(keys, buttons, vals, key_event),
                button_event,
            ) == ValueHandlerState::spec_values_step(
                keys,
                buttons,
                ValueHandlerState::spec_values_step(keys, buttons, vals, button_event),
                key_event,
            )
        }),
{
    keys.index_of_first_ensures(code);
    buttons.index_of_first_ensures(btn);
    if let (Some(i), Some(j)) = (keys.index_of_first(code), buttons.index_of_first(btn)) {
        let key_byte: u8 = if is_held {
            255u8
        } else {
            0u8
        };
        assert(vals.update(i, key_byte).update(keys.len() + j, value) =~= vals.update(
            keys.len() + j,
            value,
        ).update(i, key_byte));
    }
}

/// Extending a prefix by one slot adds that slot's byte to the sum.
proof fn lemma_sum_prefix_step(vals: Seq<u8>, i: int)
    requires
        0 <= i < vals.len(),
    ensures
        sum_slots(vals.subrange(0, i + 1)) == sum_slots(vals.subrange(0, i)) + vals[i],
{
    assert(vals.subrange(0, i + 1).drop_last() =~= vals.subrange(0, i));
}

/// A fresh, all-zero slot array.
fn zeroed_slots() -> (r: Vec<u8>)
    ensures
        r@ =~= Seq::new(32nat, |i: int| 0u8),
{
    let mut r: Vec<u8> = Vec::new();
    let mut i: usize = 0;
    while i < 32
        invariant
            0 <= i <= 32,
            r@ =~= Seq::new(i as nat, |j: int| 0u8),
        decreases 32 - i,
    {
        r.push(0);
        i += 1;
    }
    r
}

} // verus!
