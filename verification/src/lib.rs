//! Device-agnostic input mapping: converts raw keyboard and gamepad events
//! into a stable, per-frame, strongly typed input snapshot.
//!
//! All analog magnitudes are carried as integers on a 0..=255 scale (one
//! byte per binding slot), so every rule of the mapping engine is stated
//! and proved exactly, without floating point.

use vstd::prelude::*;

mod axis;
mod bindings;
mod button;
mod codes;
mod event;
mod fs_switch;
mod input;
mod stick;
mod time;
mod value;

pub use axis::Axis;
pub use axis::AxisHandler;
pub use bindings::AxisBindings;
pub use bindings::ButtonBindings;
pub use bindings::MAX_SLOTS;
pub use button::Button;
pub use button::ButtonHandlerState;
pub use button::lemma_button_cross_source_order_irrelevant;
pub use button::lemma_disconnect_clears;
pub use button::lemma_press_edge_consumed_once;
pub use button::lemma_press_release_twice;
pub use button::slot_mask;
pub use button::spec_effective_held;
pub use codes::ButtonCode;
pub use codes::KeyCode;
pub use event::AppFlow;
pub use event::GameEvent;
pub use event::StickAxis;
pub use event::axis_button_codes;
pub use event::split_axis_value;
pub use fs_switch::FsSwitch;
pub use input::Input;
pub use input::InputBindings;
pub use input::InputHandler;
pub use stick::MapperContext;
pub use stick::StickDir;
pub use stick::StickHandler;
pub use stick::in_cone;
pub use stick::lemma_opposite_cones_exclusive;
pub use stick::lemma_threshold_in_cone_when_opposite_at_rest;
pub use time::Time;
pub use value::Value;
pub use value::ValueHandlerState;
pub use value::lemma_value_cross_source_order_irrelevant;
pub use value::lemma_value_reading_clamped;
pub use value::sum_slots;

verus! {

/// Smallest magnitude (on the 0..=255 scale) at which a digital reading of an
/// analog source counts as held: the least `v` with `v / 255 >= 1 / 2`.
pub const HELD_THRESHOLD: u8 = 128;

} // verus!
