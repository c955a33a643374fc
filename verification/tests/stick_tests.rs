use lib_input::AxisBindings;
use lib_input::ButtonBindings;
use lib_input::ButtonCode;
use lib_input::GameEvent;
use lib_input::InputBindings;
use lib_input::InputHandler;
use lib_input::KeyCode;
use lib_input::StickDir;
use lib_input::StickHandler;

fn stick_bindings() -> InputBindings {
    // Jump fires on stick-right, drill on stick-up; the rest keeps the
    // stock keyboard layout.
    let mut bindings = InputBindings::default();
    let mut jump = ButtonBindings::new();
    assert!(jump.add_button(ButtonCode::LeftStickRight));
    let mut drill = ButtonBindings::new();
    assert!(drill.add_button(ButtonCode::LeftStickUp));
    bindings.jump = jump;
    bindings.drill = drill;
    bindings
}

fn button(button: ButtonCode, value: u8) -> GameEvent {
    GameEvent::Button { button, value }
}

#[test]
fn stick_ten_degrees_off_horizontal_fires_only_right() {
    let mut h = InputHandler::new(&stick_bindings());
    // Stick pushed to about 10 degrees above horizontal at 0.9 of full
    // deflection: x = 226/255, y = 40/255. The host splits each axis
    // into its two half-axis events.
    h.event(&button(ButtonCode::LeftStickRight, 226));
    h.event(&button(ButtonCode::LeftStickLeft, 0));
    h.event(&button(ButtonCode::LeftStickUp, 40));
    h.event(&button(ButtonCode::LeftStickDown, 0));
    let input = h.next_state();
    assert!(input.jump.is_held, "right is well inside its cone");
    assert!(!input.drill.is_held, "up is far outside its cone");
}

#[test]
fn stick_cone_rejects_when_net_direction_points_away() {
    let mut bindings = InputBindings::default();
    let mut jump = ButtonBindings::new();
    assert!(jump.add_button(ButtonCode::LeftStickLeft));
    bindings.jump = jump;
    let mut h = InputHandler::new(&bindings);
    // The stick was pushed right; a left half-axis reading arrives while
    // the stale right magnitude still dominates, so the net direction
    // still points right: above threshold, but outside the left cone.
    h.event(&button(ButtonCode::LeftStickRight, 200));
    h.event(&button(ButtonCode::LeftStickLeft, 150));
    assert!(!h.next_state().jump.is_held);
    // Once the right magnitude falls, the same reading is in the cone.
    h.event(&button(ButtonCode::LeftStickRight, 0));
    h.event(&button(ButtonCode::LeftStickLeft, 150));
    assert!(h.next_state().jump.is_held);
}

#[test]
fn stick_event_satisfies_cone_within_same_dispatch() {
    let mut h = InputHandler::new(&stick_bindings());
    // From rest, one full-deflection event both updates the magnitude
    // and passes the cone test it is evaluated against.
    h.event(&button(ButtonCode::LeftStickRight, 255));
    let input = h.next_state();
    assert!(input.jump.is_held && input.jump.is_pressed);
}

#[test]
fn forty_five_degrees_fires_both_adjacent_cones() {
    let mut h = InputHandler::new(&stick_bindings());
    h.event(&button(ButtonCode::LeftStickRight, 180));
    h.event(&button(ButtonCode::LeftStickUp, 180));
    let input = h.next_state();
    assert!(input.jump.is_held && input.drill.is_held);
}

#[test]
fn stick_handler_tracks_net_direction() {
    let mut s = StickHandler::new();
    s.event(&button(ButtonCode::LeftStickRight, 200));
    s.event(&button(ButtonCode::LeftStickLeft, 50));
    s.event(&button(ButtonCode::LeftStickUp, 30));
    assert_eq!(s.left_stick_dir(), StickDir { x: 150, y: 30 });
    assert_eq!(s.right_stick_dir(), StickDir { x: 0, y: 0 });
    s.event(&button(ButtonCode::RightStickDown, 99));
    assert_eq!(s.right_stick_dir(), StickDir { x: 0, y: -99 });
}

#[test]
fn stick_handler_ignores_keys_and_plain_buttons() {
    let mut s = StickHandler::new();
    s.event(&GameEvent::Key { code: KeyCode::Space, is_held: true });
    s.event(&button(ButtonCode::South, 255));
    assert_eq!(s.left_stick_dir(), StickDir { x: 0, y: 0 });
    assert_eq!(s.right_stick_dir(), StickDir { x: 0, y: 0 });
}

#[test]
fn axis_bindings_compose_per_side() {
    let a = AxisBindings {
        positive: ButtonBindings::new(),
        negative: ButtonBindings::new(),
    };
    assert_eq!(a.positive, ButtonBindings::new());
    assert_eq!(a.negative, ButtonBindings::new());
}
