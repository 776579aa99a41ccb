use wangan_arcade_loader::input::{
    axis_update, binding_for_name, parse_keybinding, Axis, AxisMotion, Button, ControllerAxis,
    InputState, KeyBinding, Keycode,
};

#[test]
fn names_map_to_bindings() {
    assert_eq!(binding_for_name("F1"), Some(KeyBinding::Keycode(Keycode::F1)));
    assert_eq!(binding_for_name("F12"), Some(KeyBinding::Keycode(Keycode::F12)));
    assert_eq!(binding_for_name("NUM0"), Some(KeyBinding::Keycode(Keycode::Key0)));
    assert_eq!(binding_for_name("UPARROW"), Some(KeyBinding::Keycode(Keycode::Up)));
    assert_eq!(binding_for_name("CONTROL"), Some(KeyBinding::Keycode(Keycode::LControl)));
    assert_eq!(binding_for_name("Z"), Some(KeyBinding::Keycode(Keycode::Z)));
    assert_eq!(binding_for_name("SDL_A"), Some(KeyBinding::Button(Button::A)));
    assert_eq!(binding_for_name("SDL_MISC"), Some(KeyBinding::Button(Button::Misc1)));
    assert_eq!(binding_for_name("SDL_RSTICK_PRESS"), Some(KeyBinding::Button(Button::RightStick)));
    assert_eq!(binding_for_name("SDL_LSTICK_LEFT"), Some(KeyBinding::Axis(Axis::LeftStickLeft)));
    assert_eq!(
        binding_for_name("SDL_RTRIGGER_UP"),
        Some(KeyBinding::Axis(Axis::RightTriggerUp))
    );
    assert_eq!(binding_for_name("f1"), None);
    assert_eq!(binding_for_name(""), None);
    assert_eq!(binding_for_name("SDL_"), None);
    assert_eq!(binding_for_name("F13"), None);
}

#[test]
fn parse_keeps_configuration_order() {
    let kb = parse_keybinding(vec!["SPACE".to_string(), "SDL_B".to_string(), "SDL_LTRIGGER_DOWN".to_string()]);
    assert_eq!(
        kb.keys(),
        &vec![
            KeyBinding::Keycode(Keycode::Space),
            KeyBinding::Button(Button::B),
            KeyBinding::Axis(Axis::LeftTriggerDown)
        ]
    );
    assert!(parse_keybinding(vec![]).keys().is_empty());
}

#[test]
fn taps_and_releases_across_frames() {
    let kb = parse_keybinding(vec!["ENTER".to_string(), "SDL_START".to_string()]);
    let mut s = InputState::new();
    assert!(s.is_up(&kb));
    assert!(!s.is_tapped(&kb));
    s.begin_frame(vec![Keycode::Enter]);
    assert!(s.is_tapped(&kb));
    assert!(!s.is_released(&kb));
    assert!(s.is_up(&kb));
    assert!(s.was_up(&kb));
    s.begin_frame(vec![Keycode::Enter]);
    assert!(!s.is_tapped(&kb));
    assert!(!s.is_released(&kb));
    s.begin_frame(vec![]);
    assert!(s.is_released(&kb));
    assert!(!s.is_tapped(&kb));
}

#[test]
fn buttons_go_down_and_up() {
    let kb = parse_keybinding(vec!["SDL_X".to_string()]);
    let mut s = InputState::new();
    s.begin_frame(vec![]);
    s.press_button(Button::X);
    s.press_button(Button::X);
    s.press_button(Button::Y);
    assert!(s.button_is_down(&Button::X));
    assert!(s.is_tapped(&kb));
    assert!(!s.is_up(&kb));
    s.begin_frame(vec![]);
    assert!(!s.is_tapped(&kb));
    s.release_button(Button::X);
    assert!(!s.button_is_down(&Button::X));
    assert!(s.button_is_down(&Button::Y));
    assert!(s.is_released(&kb));
    assert!(s.button_was_down(&Button::X));
}

#[test]
fn axes_follow_their_activity() {
    let kb = parse_keybinding(vec!["SDL_LSTICK_RIGHT".to_string()]);
    let mut s = InputState::new();
    s.begin_frame(vec![]);
    s.set_axis_active(Axis::LeftStickRight, true);
    s.set_axis_active(Axis::LeftStickRight, true);
    assert!(s.axis_is_down(&Axis::LeftStickRight));
    assert!(s.is_tapped(&kb));
    s.begin_frame(vec![]);
    s.set_axis_active(Axis::LeftStickRight, false);
    assert!(!s.axis_is_down(&Axis::LeftStickRight));
    assert!(s.axis_was_down(&Axis::LeftStickRight));
    assert!(s.is_released(&kb));
    assert!(s.binding_is_down(&KeyBinding::Axis(Axis::LeftStickLeft)) == false);
}

#[test]
fn keycode_queries() {
    let mut s = InputState::new();
    s.begin_frame(vec![Keycode::A, Keycode::B]);
    assert!(s.keycode_is_down(&Keycode::A));
    assert!(s.keycode_is_up(&Keycode::C));
    assert!(s.keycode_was_up(&Keycode::A));
    s.begin_frame(vec![Keycode::B]);
    assert!(s.keycode_was_down(&Keycode::A));
    assert!(s.keycode_is_up(&Keycode::A));
}

#[test]
fn axis_motion_targets() {
    let u = axis_update(ControllerAxis::LeftX, AxisMotion::Positive);
    assert_eq!(u.driven, Some(Axis::LeftStickRight));
    assert_eq!(u.zeroed, vec![Axis::LeftStickLeft]);
    let u = axis_update(ControllerAxis::RightX, AxisMotion::Negative);
    assert_eq!(u.driven, Some(Axis::RightStickLeft));
    assert_eq!(u.zeroed, vec![Axis::RightStickRight]);
    let u = axis_update(ControllerAxis::LeftY, AxisMotion::Positive);
    assert_eq!(u.driven, Some(Axis::LeftStickDown));
    assert!(u.zeroed.is_empty());
    let u = axis_update(ControllerAxis::TriggerRight, AxisMotion::Negative);
    assert_eq!(u.driven, Some(Axis::RightTriggerUp));
    assert!(u.zeroed.is_empty());
    let u = axis_update(ControllerAxis::RightY, AxisMotion::Centered);
    assert_eq!(u.driven, None);
    assert_eq!(u.zeroed, vec![Axis::RightStickDown, Axis::RightStickUp]);
    let u = axis_update(ControllerAxis::TriggerLeft, AxisMotion::Centered);
    assert_eq!(u.zeroed, vec![Axis::LeftTriggerDown, Axis::RightTriggerDown]);
}

#[test]
fn single_binding_queries() {
    let enter = KeyBinding::Keycode(Keycode::Enter);
    let mut s = InputState::new();
    assert!(s.binding_is_up(&enter));
    assert!(s.binding_was_up(&enter));
    s.begin_frame(vec![Keycode::Enter]);
    assert!(s.binding_is_tapped(&enter));
    assert!(!s.binding_is_released(&enter));
    assert!(!s.binding_is_up(&enter));
    s.begin_frame(vec![]);
    assert!(s.binding_is_released(&enter));
    assert!(!s.binding_is_tapped(&enter));
    assert!(!s.binding_was_up(&enter));
}

#[test]
fn applying_axis_updates_keeps_sticks_apart() {
    let mut s = InputState::new();
    s.begin_frame(vec![]);
    let right = axis_update(ControllerAxis::LeftX, AxisMotion::Positive);
    s.apply_axis_update(&right, true);
    assert!(s.axis_is_down(&Axis::LeftStickRight));
    assert!(!s.axis_is_down(&Axis::LeftStickLeft));
    let left = axis_update(ControllerAxis::LeftX, AxisMotion::Negative);
    s.apply_axis_update(&left, true);
    assert!(s.axis_is_down(&Axis::LeftStickLeft));
    assert!(!s.axis_is_down(&Axis::LeftStickRight));
    let up = axis_update(ControllerAxis::LeftY, AxisMotion::Negative);
    s.apply_axis_update(&up, true);
    assert!(s.axis_is_down(&Axis::LeftStickUp));
    assert!(s.axis_is_down(&Axis::LeftStickLeft));
    let centre = axis_update(ControllerAxis::LeftX, AxisMotion::Centered);
    s.apply_axis_update(&centre, false);
    assert!(!s.axis_is_down(&Axis::LeftStickLeft));
    assert!(!s.axis_is_down(&Axis::LeftStickRight));
    assert!(s.axis_is_down(&Axis::LeftStickUp));
    let zero_push = axis_update(ControllerAxis::RightX, AxisMotion::Positive);
    s.apply_axis_update(&zero_push, false);
    assert!(!s.axis_is_down(&Axis::RightStickRight));
}
