//! Axis composition: two opposing controls as one bidirectional control.
//!
//! An axis holds two independent instances of the same control type,
//! one per side. Events are forwarded to both sides; the mapping pass
//! maps both and packages the pair. The two sides share no state.

use vstd::prelude::*;

use crate::bindings::AxisBindings;
use crate::button::Button;
use crate::button::ButtonHandlerState;
use crate::event::GameEvent;
use crate::stick::MapperContext;
use crate::value::Value;
use crate::value::ValueHandlerState;

verus! {

/// A bidirectional control: a pair of opposing one-sided controls.
#[derive(Debug, Clone, Copy, PartialEq, Eq, Structural, Default)]
pub struct Axis<T> {
    pub positive: T,
    pub negative: T,
}

/// The accumulated state of an axis control: one handler per side.
#[derive(Debug, Clone, PartialEq)]
pub struct AxisHandler<T> {
    pub positive: T,
    pub negative: T,
}

impl Axis<Value> {
    /// The axis reading on the -255..=255 scale: the positive side's
    /// intensity minus the negative side's. Both sides clamp to the
    /// unit range on their own, so the difference never leaves it.
    pub fn value(&self) -> (r: i16)
        ensures
            r == self.positive.0 - self.negative.0,
            -255 <= r <= 255,
    {
        self.positive.0 as i16 - self.negative.0 as i16
    }
}

impl Axis<Button> {
    /// The axis as a discrete step: 1 when only the positive side is
    /// held, -1 when only the negative side is, 0 otherwise.
    pub fn value(&self) -> (r: i8)
        ensures
            r == (if self.positive.is_held {
                1int
            } else {
                0int
            }) - (if self.negative.is_held {
                1int
            } else {
                0int
            }),
    {
        (if self.positive.is_held {
            1i8
        } else {
            0i8
        }) - (if self.negative.is_held {
            1i8
        } else {
            0i8
        })
    }
}

impl AxisHandler<ValueHandlerState> {
    pub open spec fn wf(self) -> bool {
        self.positive.wf() && self.negative.wf()
    }

    /// One value handler per side, each with its own slot assignment.
    pub fn new(bindings: &AxisBindings) -> (r: Self)
        requires
            bindings.wf(),
        ensures
            r.wf(),
            r.positive.keys@ == bindings.positive.keys@,
            r.positive.buttons@ == bindings.positive.buttons@,
            r.negative.keys@ == bindings.negative.keys@,
            r.negative.buttons@ == bindings.negative.buttons@,
            r.positive.binding_values@ =~= Seq::new(32nat, |i: int| 0u8),
            r.negative.binding_values@ =~= Seq::new(32nat, |i: int| 0u8),
    {
        AxisHandler {
            positive: ValueHandlerState::new(&bindings.positive),
            negative: ValueHandlerState::new(&bindings.negative),
        }
    }

    /// Forwards the event to both sides.
    pub fn event(&mut self, event: &GameEvent, ctx: &MapperContext)
        requires
            old(self).wf(),
        ensures
            final(self).wf(),
            final(self).positive.keys@ == old(self).positive.keys@,
            final(self).positive.buttons@ == old(self).positive.buttons@,
            final(self).negative.keys@ == old(self).negative.keys@,
            final(self).negative.buttons@ == old(self).negative.buttons@,
            final(self).positive.binding_values@ == ValueHandlerState::spec_values_event(
                old(self).positive,
                *event,
            ),
            final(self).negative.binding_values@ == ValueHandlerState::spec_values_event(
                old(self).negative,
                *event,
            ),
    {
        self.positive.event(event, ctx);
        self.negative.event(event, ctx);
    }

    /// Maps both sides and packages the pair; neither side changes.
    pub fn next_state(&mut self) -> (r: Axis<Value>)
        requires
            old(self).wf(),
        ensures
            final(self).wf(),
            *final(self) == *old(self),
            r.positive == ValueHandlerState::spec_next_value(old(self).positive),
            r.negative == ValueHandlerState::spec_next_value(old(self).negative),
    {
        Axis { positive: self.positive.next_state(), negative: self.negative.next_state() }
    }
}

impl AxisHandler<ButtonHandlerState> {
    pub open spec fn wf(self) -> bool {
        self.positive.wf() && self.negative.wf()
    }

    /// One button handler per side, each with its own slot assignment.
    pub fn new(bindings: &AxisBindings) -> (r: Self)
        requires
            bindings.wf(),
        ensures
            r.wf(),
            r.positive.keys@ == bindings.positive.keys@,
            r.positive.buttons@ == bindings.positive.buttons@,
            r.negative.keys@ == bindings.negative.keys@,
            r.negative.buttons@ == bindings.negative.buttons@,
            r.positive.held_bindings == 0,
            r.negative.held_bindings == 0,
            !r.positive.is_pressed && !r.positive.was_held,
            !r.negative.is_pressed && !r.negative.was_held,
    {
        AxisHandler {
            positive: ButtonHandlerState::new(&bindings.positive),
            negative: ButtonHandlerState::new(&bindings.negative),
        }
    }

    /// Forwards the event to both sides.
    pub fn event(&mut self, event: &GameEvent, ctx: &MapperContext)
        requires
            old(self).wf(),
            ctx.wf(),
        ensures
            final(self).wf(),
            final(self).positive == ButtonHandlerState::spec_event(
                old(self).positive,
                *event,
                *ctx,
            ),
            final(self).negative == ButtonHandlerState::spec_event(
                old(self).negative,
                *event,
                *ctx,
            ),
    {
        self.positive.event(event, ctx);
        self.negative.event(event, ctx);
    }

    /// Maps both sides and packages the pair.
    pub fn next_state(&mut self) -> (r: Axis<Button>)
        requires
            old(self).wf(),
        ensures
            final(self).wf(),
            r.positive == ButtonHandlerState::spec_next_button(old(self).positive),
            r.negative == ButtonHandlerState::spec_next_button(old(self).negative),
            final(self).positive == ButtonHandlerState::spec_after_next(old(self).positive),
            final(self).negative == ButtonHandlerState::spec_after_next(old(self).negative),
    {
        Axis { positive: self.positive.next_state(), negative: self.negative.next_state() }
    }
}

} // verus!
