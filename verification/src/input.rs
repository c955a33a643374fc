//! The input schema and its stateful mapper.
//!
//! [`Input`] is the per-frame snapshot the game consumes: two analog
//! movement axes, two action buttons, and edge-triggered menu controls.
//! [`InputHandler`] owns one handler per field plus the derived stick
//! state; it ingests every raw event and produces one snapshot per
//! frame. Fields are independent: each field's new state is a function
//! of that field's old state and the event alone, so controls bound to
//! overlapping physical sources never leak state into one another.

use vstd::prelude::*;

use crate::axis::Axis;
use crate::axis::AxisHandler;
use crate::bindings::AxisBindings;
use crate::bindings::ButtonBindings;
use crate::button::Button;
use crate::button::ButtonHandlerState;
use crate::codes::KeyCode;
use crate::event::GameEvent;
use crate::stick::StickHandler;
use crate::value::Value;
use crate::value::ValueHandlerState;

verus! {

/// One frame's input snapshot.
#[derive(Debug, Clone, Copy, PartialEq, Eq, Structural, Default)]
pub struct Input {
    pub x: Axis<Value>,
    pub y: Axis<Value>,
    pub jump: Button,
    pub drill: Button,
    pub menu_x: Axis<Button>,
    pub menu_y: Axis<Button>,
    pub menu_accept: Button,
    pub menu_cancel: Button,
}

/// The binding configuration for every field of [`Input`].
#[derive(Debug, Clone, PartialEq)]
pub struct InputBindings {
    pub x: AxisBindings,
    pub y: AxisBindings,
    pub jump: ButtonBindings,
    pub drill: ButtonBindings,
    pub menu_x: AxisBindings,
    pub menu_y: AxisBindings,
    pub menu_accept: ButtonBindings,
    pub menu_cancel: ButtonBindings,
}

impl InputBindings {
    pub open spec fn wf(self) -> bool {
        &&& self.x.wf()
        &&& self.y.wf()
        &&& self.jump.wf()
        &&& self.drill.wf()
        &&& self.menu_x.wf()
        &&& self.menu_y.wf()
        &&& self.menu_accept.wf()
        &&& self.menu_cancel.wf()
    }
}

impl Default for InputBindings {
    /// The stock keyboard layout: arrows move, space jumps, C drills;
    /// the menu controls mirror the same keys as edge-triggered buttons.
    fn default() -> (r: Self)
        ensures
            r.wf(),
            r.x.positive.keys@ =~= seq![KeyCode::ArrowRight],
            r.x.negative.keys@ =~= seq![KeyCode::ArrowLeft],
            r.y.positive.keys@ =~= seq![KeyCode::ArrowUp],
            r.y.negative.keys@ =~= seq![KeyCode::ArrowDown],
            r.jump.keys@ =~= seq![KeyCode::Space],
            r.drill.keys@ =~= seq![KeyCode::KeyC],
            r.menu_x.positive.keys@ =~= seq![KeyCode::ArrowRight],
            r.menu_x.negative.keys@ =~= seq![KeyCode::ArrowLeft],
            r.menu_y.positive.keys@ =~= seq![KeyCode::ArrowUp],
            r.menu_y.negative.keys@ =~= seq![KeyCode::ArrowDown],
            r.menu_accept.keys@ =~= seq![KeyCode::Space],
            r.menu_cancel.keys@ =~= seq![KeyCode::KeyC],
    {
        InputBindings {
            x: AxisBindings {
                positive: ButtonBindings::from_key(KeyCode::ArrowRight),
                negative: ButtonBindings::from_key(KeyCode::ArrowLeft),
            },
            y: AxisBindings {
                positive: ButtonBindings::from_key(KeyCode::ArrowUp),
                negative: ButtonBindings::from_key(KeyCode::ArrowDown),
            },
            jump: ButtonBindings::from_key(KeyCode::Space),
            drill: ButtonBindings::from_key(KeyCode::KeyC),
            menu_x: AxisBindings {
                positive: ButtonBindings::from_key(KeyCode::ArrowRight),
                negative: ButtonBindings::from_key(KeyCode::ArrowLeft),
            },
            menu_y: AxisBindings {
                positive: ButtonBindings::from_key(KeyCode::ArrowUp),
                negative: ButtonBindings::from_key(KeyCode::ArrowDown),
            },
            menu_accept: ButtonBindings::from_key(KeyCode::Space),
            menu_cancel: ButtonBindings::from_key(KeyCode::KeyC),
        }
    }
}

/// The stateful mapping engine: one handler per schema field, plus the
/// stick magnitudes from which the directional context is derived.
#[derive(Debug, Clone, PartialEq)]
pub struct InputHandler {
    pub x: AxisHandler<ValueHandlerState>,
    pub y: AxisHandler<ValueHandlerState>,
    pub jump: ButtonHandlerState,
    pub drill: ButtonHandlerState,
    pub menu_x: AxisHandler<ButtonHandlerState>,
    pub menu_y: AxisHandler<ButtonHandlerState>,
    pub menu_accept: ButtonHandlerState,
    pub menu_cancel: ButtonHandlerState,
    pub stick_handler: StickHandler,
}

impl InputHandler {
    pub open spec fn wf(self) -> bool {
        &&& self.x.wf()
        &&& self.y.wf()
        &&& self.jump.wf()
        &&& self.drill.wf()
        &&& self.menu_x.wf()
        &&& self.menu_y.wf()
        &&& self.menu_accept.wf()
        &&& self.menu_cancel.wf()
    }

    /// One handler per field; nothing held, every intensity at zero,
    /// both sticks at rest.
    pub fn new(bindings: &InputBindings) -> (r: Self)
        requires
            bindings.wf(),
        ensures
            r.wf(),
            r.jump.keys@ == bindings.jump.keys@,
            r.jump.buttons@ == bindings.jump.buttons@,
            r.jump.held_bindings == 0 && !r.jump.is_pressed && !r.jump.was_held,
            r.drill.keys@ == bindings.drill.keys@,
            r.drill.buttons@ == bindings.drill.buttons@,
            r.drill.held_bindings == 0 && !r.drill.is_pressed && !r.drill.was_held,
            r.menu_accept.keys@ == bindings.menu_accept.keys@,
            r.menu_accept.buttons@ == bindings.menu_accept.buttons@,
            r.menu_accept.held_bindings == 0 && !r.menu_accept.is_pressed
                && !r.menu_accept.was_held,
            r.menu_cancel.keys@ == bindings.menu_cancel.keys@,
            r.menu_cancel.buttons@ == bindings.menu_cancel.buttons@,
            r.menu_cancel.held_bindings == 0 && !r.menu_cancel.is_pressed
                && !r.menu_cancel.was_held,
            r.x.positive.keys@ == bindings.x.positive.keys@,
            r.x.positive.buttons@ == bindings.x.positive.buttons@,
            r.x.negative.keys@ == bindings.x.negative.keys@,
            r.x.negative.buttons@ == bindings.x.negative.buttons@,
            r.x.positive.binding_values@ =~= Seq::new(32nat, |i: int| 0u8),
            r.x.negative.binding_values@ =~= Seq::new(32nat, |i: int| 0u8),
            r.y.positive.keys@ == bindings.y.positive.keys@,
            r.y.positive.buttons@ == bindings.y.positive.buttons@,
            r.y.negative.keys@ == bindings.y.negative.keys@,
            r.y.negative.buttons@ == bindings.y.negative.buttons@,
            r.y.positive.binding_values@ =~= Seq::new(32nat, |i: int| 0u8),
            r.y.negative.binding_values@ =~= Seq::new(32nat, |i: int| 0u8),
            r.menu_x.positive.keys@ == bindings.menu_x.positive.keys@,
            r.menu_x.positive.buttons@ == bindings.menu_x.positive.buttons@,
            r.menu_x.negative.keys@ == bindings.menu_x.negative.keys@,
            r.menu_x.negative.buttons@ == bindings.menu_x.negative.buttons@,
            r.menu_x.positive.held_bindings == 0 && !r.menu_x.positive.is_pressed
                && !r.menu_x.positive.was_held,
            r.menu_x.negative.held_bindings == 0 && !r.menu_x.negative.is_pressed
                && !r.menu_x.negative.was_held,
            r.menu_y.positive.keys@ == bindings.menu_y.positive.keys@,
            r.menu_y.positive.buttons@ == bindings.menu_y.positive.buttons@,
            r.menu_y.negative.keys@ == bindings.menu_y.negative.keys@,
            r.menu_y.negative.buttons@ == bindings.menu_y.negative.buttons@,
            r.menu_y.positive.held_bindings == 0 && !r.menu_y.positive.is_pressed
                && !r.menu_y.positive.was_held,
            r.menu_y.negative.held_bindings == 0 && !r.menu_y.negative.is_pressed
                && !r.menu_y.negative.was_held,
            r.stick_handler == StickHandler::spec_at_rest(),
    {
        InputHandler {
            x: AxisHandler::<ValueHandlerState>::new(&bindings.x),
            y: AxisHandler::<ValueHandlerState>::new(&bindings.y),
            jump: ButtonHandlerState::new(&bindings.jump),
            drill: ButtonHandlerState::new(&bindings.drill),
            menu_x: AxisHandler::<ButtonHandlerState>::new(&bindings.menu_x),
            menu_y: AxisHandler::<ButtonHandlerState>::new(&bindings.menu_y),
            menu_accept: ButtonHandlerState::new(&bindings.menu_accept),
            menu_cancel: ButtonHandlerState::new(&bindings.menu_cancel),
            stick_handler: StickHandler::new(),
        }
    }

    /// Ingests one raw event. The stick magnitudes are updated first and
    /// the directional context is derived from the updated state, so a
    /// stick axis event can satisfy both the magnitude test and the
    /// direction-cone test within this same dispatch. Every field then
    /// sees the same event and the same context, independently.
    pub fn event(&mut self, event: &GameEvent)
        requires
            old(self).wf(),
        ensures
            final(self).wf(),
            final(self).stick_handler == StickHandler::spec_event(
                old(self).stick_handler,
                *event,
            ),
            ({
                let ctx = StickHandler::spec_ctx(final(self).stick_handler);
                &&& ValueHandlerState::spec_steps(
                    old(self).x.positive,
                    final(self).x.positive,
                    *event,
                )
                &&& ValueHandlerState::spec_steps(
                    old(self).x.negative,
                    final(self).x.negative,
                    *event,
                )
                &&& ValueHandlerState::spec_steps(
                    old(self).y.positive,
                    final(self).y.positive,
                    *event,
                )
                &&& ValueHandlerState::spec_steps(
                    old(self).y.negative,
                    final(self).y.negative,
                    *event,
                )
                &&& final(self).jump == ButtonHandlerState::spec_event(
                    old(self).jump,
                    *event,
                    ctx,
                )
                &&& final(self).drill == ButtonHandlerState::spec_event(
                    old(self).drill,
                    *event,
                    ctx,
                )
                &&& final(self).menu_x.positive == ButtonHandlerState::spec_event(
                    old(self).menu_x.positive,
                    *event,
                    ctx,
                )
                &&& final(self).menu_x.negative == ButtonHandlerState::spec_event(
                    old(self).menu_x.negative,
                    *event,
                    ctx,
                )
                &&& final(self).menu_y.positive == ButtonHandlerState::spec_event(
                    old(self).menu_y.positive,
                    *event,
                    ctx,
                )
                &&& final(self).menu_y.negative == ButtonHandlerState::spec_event(
                    old(self).menu_y.negative,
                    *event,
                    ctx,
                )
                &&& final(self).menu_accept == ButtonHandlerState::spec_event(
                    old(self).menu_accept,
                    *event,
                    ctx,
                )
                &&& final(self).menu_cancel == ButtonHandlerState::spec_event(
                    old(self).menu_cancel,
                    *event,
                    ctx,
                )
            }),
    {
        self.stick_handler.event(event);
        let ctx = self.stick_handler.ctx();
        self.x.event(event, &ctx);
        self.y.event(event, &ctx);
        self.jump.event(event, &ctx);
        self.drill.event(event, &ctx);
        self.menu_x.event(event, &ctx);
        self.menu_y.event(event, &ctx);
        self.menu_accept.event(event, &ctx);
        self.menu_cancel.event(event, &ctx);
    }

    /// The once-per-frame mapping pass: maps every field in schema
    /// order and assembles the snapshot. Value fields are read without
    /// change; button fields consume their press edge.
    pub fn next_state(&mut self) -> (r: Input)
        requires
            old(self).wf(),
        ensures
            final(self).wf(),
            r.x.positive == ValueHandlerState::spec_next_value(old(self).x.positive),
            r.x.negative == ValueHandlerState::spec_next_value(old(self).x.negative),
            r.y.positive == ValueHandlerState::spec_next_value(old(self).y.positive),
            r.y.negative == ValueHandlerState::spec_next_value(old(self).y.negative),
            r.jump == ButtonHandlerState::spec_next_button(old(self).jump),
            r.drill == ButtonHandlerState::spec_next_button(old(self).drill),
            r.menu_x.positive == ButtonHandlerState::spec_next_button(old(self).menu_x.positive),
            r.menu_x.negative == ButtonHandlerState::spec_next_button(old(self).menu_x.negative),
            r.menu_y.positive == ButtonHandlerState::spec_next_button(old(self).menu_y.positive),
            r.menu_y.negative == ButtonHandlerState::spec_next_button(old(self).menu_y.negative),
            r.menu_accept == ButtonHandlerState::spec_next_button(old(self).menu_accept),
            r.menu_cancel == ButtonHandlerState::spec_next_button(old(self).menu_cancel),
            final(self).x == old(self).x,
            final(self).y == old(self).y,
            final(self).jump == ButtonHandlerState::spec_after_next(old(self).jump),
            final(self).drill == ButtonHandlerState::spec_after_next(old(self).drill),
            final(self).menu_x.positive == ButtonHandlerState::spec_after_next(
                old(self).menu_x.positive,
            ),
            final(self).menu_x.negative == ButtonHandlerState::spec_after_next(
                old(self).menu_x.negative,
            ),
            final(self).menu_y.positive == ButtonHandlerState::spec_after_next(
                old(self).menu_y.positive,
            ),
            final(self).menu_y.negative == ButtonHandlerState::spec_after_next(
                old(self).menu_y.negative,
            ),
            final(self).menu_accept == ButtonHandlerState::spec_after_next(
                old(self).menu_accept,
            ),
            final(self).menu_cancel == ButtonHandlerState::spec_after_next(
                old(self).menu_cancel,
            ),
            final(self).stick_handler == old(self).stick_handler,
    {
        Input {
            x: self.x.next_state(),
            y: self.y.next_state(),
            jump: self.jump.next_state(),
            drill: self.drill.next_state(),
            menu_x: self.menu_x.next_state(),
            menu_y: self.menu_y.next_state(),
            menu_accept: self.menu_accept.next_state(),
            menu_cancel: self.menu_cancel.next_state(),
        }
    }
}

} // verus!
