use winit_softbuffer_bar::pointer::{
    button_action, wheel_action, MouseButton, PointerAction, WheelDelta,
};

fn lines(value: f32) -> WheelDelta {
    WheelDelta::Lines { lines: value.to_bits() }
}

fn pixels(value: f64) -> WheelDelta {
    WheelDelta::Pixels { pixels: value.to_bits() }
}

fn expected(value: f64) -> Option<PointerAction> {
    if value > 0.0 {
        Some(PointerAction::ScrollUp)
    } else if value < 0.0 {
        Some(PointerAction::ScrollDown)
    } else {
        None
    }
}

#[test]
fn left_and_right_buttons_act() {
    assert_eq!(button_action(MouseButton::Left), Some(PointerAction::Primary));
    assert_eq!(button_action(MouseButton::Right), Some(PointerAction::Secondary));
}

#[test]
fn other_buttons_do_nothing() {
    for button in [
        MouseButton::Middle,
        MouseButton::Back,
        MouseButton::Forward,
        MouseButton::Other(0),
        MouseButton::Other(9),
    ] {
        assert_eq!(button_action(button), None);
    }
}

#[test]
fn wheel_scrolls_by_lines() {
    assert_eq!(wheel_action(lines(1.0)), Some(PointerAction::ScrollUp));
    assert_eq!(wheel_action(lines(-1.0)), Some(PointerAction::ScrollDown));
    assert_eq!(wheel_action(lines(0.0)), None);
    assert_eq!(wheel_action(lines(-0.0)), None);
    assert_eq!(wheel_action(lines(f32::NAN)), None);
    assert_eq!(wheel_action(lines(-f32::NAN)), None);
}

#[test]
fn wheel_agrees_with_arithmetic() {
    for value in [
        0.0,
        -0.0,
        1.0,
        -1.0,
        120.5,
        -120.5,
        f64::MIN_POSITIVE,
        -f64::MIN_POSITIVE,
        5e-324,
        -5e-324,
        f64::MAX,
        f64::MIN,
        f64::INFINITY,
        f64::NEG_INFINITY,
        f64::NAN,
        -f64::NAN,
    ] {
        assert_eq!(wheel_action(pixels(value)), expected(value));
        let narrow = value as f32;
        assert_eq!(wheel_action(lines(narrow)), expected(f64::from(narrow)));
    }
}

#[test]
fn reversed_wheel_means_the_opposite() {
    for value in [0.25, 3.0, 1e300] {
        assert_eq!(wheel_action(pixels(value)), Some(PointerAction::ScrollUp));
        assert_eq!(wheel_action(pixels(-value)), Some(PointerAction::ScrollDown));
    }
}
