use lib_input::ButtonCode;
use lib_input::FsSwitch;
use lib_input::GameEvent;
use lib_input::KeyCode;
use lib_input::StickAxis;
use lib_input::Time;
use lib_input::axis_button_codes;
use lib_input::split_axis_value;

fn press(code: KeyCode) -> GameEvent {
    GameEvent::Key { code, is_held: true }
}

fn release(code: KeyCode) -> GameEvent {
    GameEvent::Key { code, is_held: false }
}

#[test]
fn fs_switch_fires_on_enter_rising_edge_only() {
    let mut fs = FsSwitch::new();
    assert!(fs.event(&press(KeyCode::Enter)));
    assert!(!fs.event(&press(KeyCode::Enter)), "still held: no new edge");
    assert!(!fs.event(&release(KeyCode::Enter)));
    assert!(fs.event(&press(KeyCode::Enter)), "released, so a new edge");
}

#[test]
fn fs_switch_watches_numpad_enter_separately() {
    let mut fs = FsSwitch::new();
    assert!(fs.event(&press(KeyCode::NumpadEnter)));
    assert!(fs.event(&press(KeyCode::Enter)), "the two keys edge independently");
}

#[test]
fn fs_switch_tracks_alt_and_ignores_other_events() {
    let mut fs = FsSwitch::new();
    assert!(!fs.event(&press(KeyCode::AltLeft)));
    assert!(!fs.event(&press(KeyCode::AltRight)));
    assert!(!fs.event(&press(KeyCode::Space)));
    assert!(!fs.event(&GameEvent::Button { button: ButtonCode::South, value: 255 }));
    assert!(!fs.event(&GameEvent::CloseRequested));
}

#[test]
fn time_tick_returns_elapsed_and_remembers() {
    let mut t = Time::new(1000);
    assert_eq!(t.tick(1016), 16);
    assert_eq!(t.tick(1016), 0);
    assert_eq!(t.tick(1050), 34);
}

#[test]
fn time_tick_saturates_when_clock_goes_backwards() {
    let mut t = Time::new(500);
    assert_eq!(t.tick(400), 0);
    assert_eq!(t.tick(450), 50);
}

#[test]
fn axis_codes_pair_positive_then_negative() {
    assert_eq!(
        axis_button_codes(StickAxis::LeftX),
        (ButtonCode::LeftStickRight, ButtonCode::LeftStickLeft)
    );
    assert_eq!(
        axis_button_codes(StickAxis::LeftY),
        (ButtonCode::LeftStickUp, ButtonCode::LeftStickDown)
    );
    assert_eq!(
        axis_button_codes(StickAxis::RightX),
        (ButtonCode::RightStickRight, ButtonCode::RightStickLeft)
    );
    assert_eq!(
        axis_button_codes(StickAxis::RightY),
        (ButtonCode::RightStickUp, ButtonCode::RightStickDown)
    );
}

#[test]
fn split_axis_value_clamps_each_side_at_zero() {
    assert_eq!(split_axis_value(255), (255, 0));
    assert_eq!(split_axis_value(-255), (0, 255));
    assert_eq!(split_axis_value(0), (0, 0));
    assert_eq!(split_axis_value(-1), (0, 1));
    assert_eq!(split_axis_value(128), (128, 0));
}
