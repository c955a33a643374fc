use lib_input::ButtonBindings;
use lib_input::ButtonCode;
use lib_input::GameEvent;
use lib_input::KeyCode;
use lib_input::MapperContext;
use lib_input::Value;
use lib_input::ValueHandlerState;

fn two_key_value() -> ValueHandlerState {
    let mut b = ButtonBindings::new();
    assert!(b.add_key(KeyCode::Other(1)));
    assert!(b.add_key(KeyCode::Other(2)));
    ValueHandlerState::new(&b)
}

#[test]
fn value_clamps_to_full_intensity() {
    let mut v = two_key_value();
    let ctx = MapperContext::neutral();
    v.event(&GameEvent::Key { code: KeyCode::Other(1), is_held: true }, &ctx);
    v.event(&GameEvent::Key { code: KeyCode::Other(2), is_held: true }, &ctx);
    // Two slots at 255 sum to 510; the reading clamps to 255 (full).
    assert_eq!(v.next_state(), Value(255));
}

#[test]
fn value_never_negative_and_sums_partial_intensities() {
    let mut b = ButtonBindings::new();
    assert!(b.add_button(ButtonCode::LeftTrigger2));
    assert!(b.add_button(ButtonCode::RightTrigger2));
    let mut v = ValueHandlerState::new(&b);
    let ctx = MapperContext::neutral();
    assert_eq!(v.next_state(), Value(0));
    v.event(&GameEvent::Button { button: ButtonCode::LeftTrigger2, value: 100 }, &ctx);
    v.event(&GameEvent::Button { button: ButtonCode::RightTrigger2, value: 100 }, &ctx);
    assert_eq!(v.next_state(), Value(200));
    v.event(&GameEvent::Button { button: ButtonCode::LeftTrigger2, value: 200 }, &ctx);
    assert_eq!(v.next_state(), Value(255));
}

#[test]
fn value_mapping_is_idempotent() {
    let mut v = two_key_value();
    let ctx = MapperContext::neutral();
    v.event(&GameEvent::Key { code: KeyCode::Other(1), is_held: true }, &ctx);
    let first = v.next_state();
    let second = v.next_state();
    assert_eq!(first, second);
    assert_eq!(first, Value(255));
}

#[test]
fn value_slot_is_overwritten_not_accumulated() {
    let mut b = ButtonBindings::new();
    assert!(b.add_button(ButtonCode::RightTrigger));
    let mut v = ValueHandlerState::new(&b);
    let ctx = MapperContext::neutral();
    v.event(&GameEvent::Button { button: ButtonCode::RightTrigger, value: 200 }, &ctx);
    v.event(&GameEvent::Button { button: ButtonCode::RightTrigger, value: 60 }, &ctx);
    assert_eq!(v.next_state(), Value(60));
}

#[test]
fn value_key_repeat_does_not_double_count() {
    let mut v = two_key_value();
    let ctx = MapperContext::neutral();
    v.event(&GameEvent::Key { code: KeyCode::Other(1), is_held: true }, &ctx);
    v.event(&GameEvent::Key { code: KeyCode::Other(1), is_held: true }, &ctx);
    assert_eq!(v.next_state(), Value(255));
}

#[test]
fn value_disconnect_zeroes_all_slots() {
    let mut b = ButtonBindings::new();
    assert!(b.add_button(ButtonCode::South));
    assert!(b.add_button(ButtonCode::East));
    let mut v = ValueHandlerState::new(&b);
    let ctx = MapperContext::neutral();
    v.event(&GameEvent::Button { button: ButtonCode::South, value: 120 }, &ctx);
    v.event(&GameEvent::Button { button: ButtonCode::East, value: 120 }, &ctx);
    assert_eq!(v.next_state(), Value(240));
    v.event(&GameEvent::Disconnected, &ctx);
    assert_eq!(v.next_state(), Value(0));
}

#[test]
fn value_ignores_unbound_sources_and_connect() {
    let mut v = two_key_value();
    let ctx = MapperContext::neutral();
    v.event(&GameEvent::Key { code: KeyCode::Other(9), is_held: true }, &ctx);
    v.event(&GameEvent::Button { button: ButtonCode::South, value: 255 }, &ctx);
    v.event(&GameEvent::Connected, &ctx);
    assert_eq!(v.next_state(), Value(0));
}

#[test]
fn value_key_release_clears_its_slot() {
    let mut v = two_key_value();
    let ctx = MapperContext::neutral();
    v.event(&GameEvent::Key { code: KeyCode::Other(1), is_held: true }, &ctx);
    v.event(&GameEvent::Key { code: KeyCode::Other(1), is_held: false }, &ctx);
    assert_eq!(v.next_state(), Value(0));
}
