use lib_input::Button;
use lib_input::ButtonBindings;
use lib_input::ButtonCode;
use lib_input::ButtonHandlerState;
use lib_input::GameEvent;
use lib_input::KeyCode;
use lib_input::MapperContext;

fn space_button() -> ButtonHandlerState {
    let mut b = ButtonBindings::new();
    assert!(b.add_key(KeyCode::Space));
    ButtonHandlerState::new(&b)
}

fn press(code: KeyCode) -> GameEvent {
    GameEvent::Key { code, is_held: true }
}

fn release(code: KeyCode) -> GameEvent {
    GameEvent::Key { code, is_held: false }
}

#[test]
fn press_and_release_twice_within_one_frame_reports_both_edges() {
    let mut h = space_button();
    let ctx = MapperContext::neutral();
    // Frame 1: press and hold, so the previous pass saw the control held.
    h.event(&press(KeyCode::Space), &ctx);
    let b = h.next_state();
    assert!(b.is_held && b.is_pressed && !b.is_released);
    // Frame 2: release, press, release before the mapping pass.
    h.event(&release(KeyCode::Space), &ctx);
    h.event(&press(KeyCode::Space), &ctx);
    h.event(&release(KeyCode::Space), &ctx);
    let b = h.next_state();
    assert!(b.is_pressed, "the double edge must still latch a press");
    assert!(b.is_released, "held at the previous pass, nothing held now");
    assert!(!b.is_held, "the level reflects the final raw state");
}

#[test]
fn press_edge_is_consumed_exactly_once() {
    let mut h = space_button();
    let ctx = MapperContext::neutral();
    h.event(&press(KeyCode::Space), &ctx);
    assert!(h.next_state().is_pressed);
    let b = h.next_state();
    assert!(!b.is_pressed, "no event between passes: the edge is gone");
    assert!(b.is_held, "the key is still down");
}

#[test]
fn key_repeat_while_held_is_no_new_press() {
    let mut h = space_button();
    let ctx = MapperContext::neutral();
    h.event(&press(KeyCode::Space), &ctx);
    assert!(h.next_state().is_pressed);
    h.event(&press(KeyCode::Space), &ctx);
    assert!(!h.next_state().is_pressed);
}

#[test]
fn disconnect_clears_held_gamepad_bindings() {
    let mut b = ButtonBindings::new();
    assert!(b.add_button(ButtonCode::South));
    let mut h = ButtonHandlerState::new(&b);
    let ctx = MapperContext::neutral();
    h.event(&GameEvent::Button { button: ButtonCode::South, value: 255 }, &ctx);
    let s = h.next_state();
    assert!(s.is_held && s.is_pressed);
    h.event(&GameEvent::Disconnected, &ctx);
    let s = h.next_state();
    assert!(!s.is_held);
    assert!(s.is_released);
}

#[test]
fn gamepad_button_threshold_is_half_intensity() {
    let mut b = ButtonBindings::new();
    assert!(b.add_button(ButtonCode::West));
    let mut h = ButtonHandlerState::new(&b);
    let ctx = MapperContext::neutral();
    h.event(&GameEvent::Button { button: ButtonCode::West, value: 127 }, &ctx);
    assert!(!h.next_state().is_held);
    h.event(&GameEvent::Button { button: ButtonCode::West, value: 128 }, &ctx);
    assert!(h.next_state().is_held);
}

#[test]
fn two_bindings_one_control_stays_held_until_both_release() {
    let mut b = ButtonBindings::new();
    assert!(b.add_key(KeyCode::Space));
    assert!(b.add_button(ButtonCode::South));
    let mut h = ButtonHandlerState::new(&b);
    let ctx = MapperContext::neutral();
    h.event(&press(KeyCode::Space), &ctx);
    h.event(&GameEvent::Button { button: ButtonCode::South, value: 255 }, &ctx);
    assert!(h.next_state().is_held);
    h.event(&release(KeyCode::Space), &ctx);
    let s = h.next_state();
    assert!(s.is_held && !s.is_released, "the gamepad binding still holds it");
    h.event(&GameEvent::Button { button: ButtonCode::South, value: 0 }, &ctx);
    let s = h.next_state();
    assert!(!s.is_held && s.is_released);
}

#[test]
fn unbound_events_change_nothing() {
    let mut h = space_button();
    let ctx = MapperContext::neutral();
    h.event(&press(KeyCode::KeyC), &ctx);
    h.event(&GameEvent::Button { button: ButtonCode::South, value: 255 }, &ctx);
    h.event(&GameEvent::Connected, &ctx);
    let s = h.next_state();
    assert_eq!(s, Button { is_held: false, is_pressed: false, is_released: false });
}

#[test]
fn key_and_gamepad_event_order_within_a_frame_is_irrelevant() {
    let mut b = ButtonBindings::new();
    assert!(b.add_key(KeyCode::Space));
    assert!(b.add_button(ButtonCode::South));
    let ctx = MapperContext::neutral();
    let key = press(KeyCode::Space);
    let pad = GameEvent::Button { button: ButtonCode::South, value: 255 };
    let mut first = ButtonHandlerState::new(&b);
    first.event(&key, &ctx);
    first.event(&pad, &ctx);
    let mut second = ButtonHandlerState::new(&b);
    second.event(&pad, &ctx);
    second.event(&key, &ctx);
    assert_eq!(first, second);
    assert_eq!(first.next_state(), second.next_state());
}

#[test]
fn binding_rejects_duplicates_and_over_capacity() {
    let mut b = ButtonBindings::new();
    assert!(b.add_key(KeyCode::Space));
    assert!(!b.add_key(KeyCode::Space), "a source binds at most once");
    for i in 0..31 {
        assert!(b.add_key(KeyCode::Other(i)));
    }
    assert!(!b.add_key(KeyCode::Other(99)), "all 32 slots are taken");
    assert!(!b.add_button(ButtonCode::South), "buttons share the 32 slots");
}
