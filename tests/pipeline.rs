use bevy::input::gamepad::{Gamepad, GamepadAxisType, GamepadButton, GamepadButtonType};
use bevy::input::keyboard::KeyCode;
use bevy::input::mouse::MouseButton;
use bevy::input::ButtonState;

use input_mapping::{
    axis_direction, classify, classify_gamepad_axis, classify_gamepad_button, classify_keyboard,
    classify_mouse_button, classify_mouse_motion, parse_input, GamepadAxisEvent,
    GamepadButtonEvent, InputBatch, InputDirection, InputMap, InputMappable, InputSample,
    InputType, InputUpdateEvent, Inputs, KeyboardEvent, MouseButtonEvent, MouseMotionEvent,
    Scalar,
};

fn num(v: f32) -> Scalar {
    Scalar::from_bits(v.to_bits())
}

fn val(s: Scalar) -> f32 {
    f32::from_bits(s.to_bits())
}

fn empty_batch() -> InputBatch {
    InputBatch {
        keyboard: Vec::new(),
        mouse_buttons: Vec::new(),
        mouse_motion: Vec::new(),
        gamepad_buttons: Vec::new(),
        gamepad_axes: Vec::new(),
    }
}

fn motion(dir: InputDirection) -> InputType {
    InputType::MouseMovement { direction: dir }
}

const ALL_ACTIONS: [InputMappable; 8] = [
    InputMappable::DirectionUp,
    InputMappable::DirectionDown,
    InputMappable::DirectionLeft,
    InputMappable::DirectionRight,
    InputMappable::LookDeltaLeft,
    InputMappable::LookDeltaRight,
    InputMappable::LookDeltaUp,
    InputMappable::LookDeltaDown,
];

fn snapshot(inputs: &Inputs) -> Vec<(u32, bool)> {
    ALL_ACTIONS
        .iter()
        .map(|a| {
            let (m, d) = inputs.value(*a);
            (m.to_bits(), d)
        })
        .collect()
}

#[test]
fn keyboard_press_and_release() {
    let pressed = classify_keyboard(&KeyboardEvent { key_code: KeyCode::KeyW, state: ButtonState::Pressed });
    assert!(pressed.input_type == InputType::KeyboardKey { key_code: KeyCode::KeyW });
    assert_eq!(val(pressed.magnitude), 1.0);
    assert!(pressed.discrete);
    let released =
        classify_keyboard(&KeyboardEvent { key_code: KeyCode::KeyW, state: ButtonState::Released });
    assert_eq!(val(released.magnitude), 0.0);
    assert!(released.discrete);
}

#[test]
fn mouse_button_press_and_release() {
    let pressed = classify_mouse_button(&MouseButtonEvent { button: MouseButton::Left, state: ButtonState::Pressed });
    assert!(pressed.input_type == InputType::MouseButton { button_code: MouseButton::Left });
    assert_eq!(val(pressed.magnitude), 1.0);
    assert!(pressed.discrete);
    let released = classify_mouse_button(&MouseButtonEvent {
        button: MouseButton::Other(7),
        state: ButtonState::Released,
    });
    assert_eq!(val(released.magnitude), 0.0);
    assert!(released.discrete);
}

#[test]
fn gamepad_button_press_and_release() {
    let button = GamepadButton::new(Gamepad::new(1), GamepadButtonType::South);
    let pressed = classify_gamepad_button(&GamepadButtonEvent { button, state: ButtonState::Pressed });
    assert!(pressed.input_type == InputType::GamepadButton { button_code: button });
    assert_eq!(val(pressed.magnitude), 1.0);
    assert!(pressed.discrete);
    let released = classify_gamepad_button(&GamepadButtonEvent { button, state: ButtonState::Released });
    assert_eq!(val(released.magnitude), 0.0);
    assert!(released.discrete);
}

// Convention: a vertical delta at or above zero is PositiveVertical.
#[test]
fn mouse_motion_splits_into_two_absolute_samples() {
    let (x, y) = classify_mouse_motion(&MouseMotionEvent { delta_x: num(-3.0), delta_y: num(0.0) });
    assert!(x.input_type == motion(InputDirection::NegativeHorizontal));
    assert_eq!(val(x.magnitude), 3.0);
    assert!(!x.discrete);
    assert!(y.input_type == motion(InputDirection::PositiveVertical));
    assert_eq!(val(y.magnitude), 0.0);
    assert!(!y.discrete);

    let (x, y) = classify_mouse_motion(&MouseMotionEvent { delta_x: num(4.5), delta_y: num(-2.5) });
    assert!(x.input_type == motion(InputDirection::PositiveHorizontal));
    assert_eq!(val(x.magnitude), 4.5);
    assert!(y.input_type == motion(InputDirection::NegativeVertical));
    assert_eq!(val(y.magnitude), 2.5);
}

#[test]
fn mouse_motion_negative_zero_and_nan() {
    let (x, y) = classify_mouse_motion(&MouseMotionEvent { delta_x: num(-0.0), delta_y: num(f32::NAN) });
    assert!(x.input_type == motion(InputDirection::PositiveHorizontal));
    assert_eq!(x.magnitude.to_bits(), 0);
    assert!(y.input_type == motion(InputDirection::NegativeVertical));
    assert!(val(y.magnitude).is_nan());
}

#[test]
fn gamepad_axis_directions() {
    assert_eq!(axis_direction(&GamepadAxisType::LeftStickX, num(0.5)), InputDirection::PositiveHorizontal);
    assert_eq!(axis_direction(&GamepadAxisType::LeftStickX, num(0.0)), InputDirection::PositiveHorizontal);
    assert_eq!(axis_direction(&GamepadAxisType::RightStickX, num(-0.1)), InputDirection::NegativeHorizontal);
    assert_eq!(axis_direction(&GamepadAxisType::LeftStickY, num(0.3)), InputDirection::PositiveVertical);
    assert_eq!(axis_direction(&GamepadAxisType::RightStickY, num(-0.3)), InputDirection::NegativeVertical);
}

#[test]
fn gamepad_axis_unrecognized_is_negative_horizontal() {
    assert_eq!(axis_direction(&GamepadAxisType::LeftZ, num(0.9)), InputDirection::NegativeHorizontal);
    assert_eq!(axis_direction(&GamepadAxisType::RightZ, num(-0.9)), InputDirection::NegativeHorizontal);
    assert_eq!(axis_direction(&GamepadAxisType::Other(3), num(1.0)), InputDirection::NegativeHorizontal);
}

// Scenario: left stick X at -0.75. The stored magnitude is the raw signed
// value, unlike mouse motion, which stores the absolute value.
#[test]
fn gamepad_axis_keeps_raw_signed_value() {
    let s = classify_gamepad_axis(&GamepadAxisEvent { axis_type: GamepadAxisType::LeftStickX, value: num(-0.75) });
    assert!(
        s.input_type
            == InputType::GamepadAxis {
                axis: GamepadAxisType::LeftStickX,
                axis_direction: InputDirection::NegativeHorizontal,
            }
    );
    assert_eq!(val(s.magnitude), -0.75);
    assert!(!s.discrete);

    let mut inputs = Inputs::default();
    inputs.input_maps.insert(s.input_type, InputMappable::LookDeltaLeft);
    let mut batch = empty_batch();
    batch.gamepad_axes.push(GamepadAxisEvent { axis_type: GamepadAxisType::LeftStickX, value: num(-0.75) });
    let mut events = Vec::new();
    parse_input(&batch, &mut inputs, &mut events);
    assert_eq!(events, vec![InputUpdateEvent { input_event: InputMappable::LookDeltaLeft }]);
    let (m, d) = inputs.value(InputMappable::LookDeltaLeft);
    assert_eq!(val(m), -0.75);
    assert!(!d);
}

#[test]
fn unbound_sample_changes_nothing() {
    let mut inputs = Inputs::default();
    let before = snapshot(&inputs);
    let sample = InputSample {
        input_type: InputType::KeyboardKey { key_code: KeyCode::KeyQ },
        magnitude: num(1.0),
        discrete: true,
    };
    assert_eq!(inputs.apply(&sample), None);
    assert_eq!(snapshot(&inputs), before);

    let mut events = vec![InputUpdateEvent { input_event: InputMappable::LookDeltaUp }];
    inputs.dispatch(&vec![sample, sample], &mut events);
    assert_eq!(events, vec![InputUpdateEvent { input_event: InputMappable::LookDeltaUp }]);
    assert_eq!(snapshot(&inputs), before);
}

#[test]
fn last_write_wins_and_events_are_not_coalesced() {
    let mut inputs = Inputs::default();
    inputs.input_maps.insert(InputType::KeyboardKey { key_code: KeyCode::KeyA }, InputMappable::DirectionLeft);
    let first = InputSample {
        input_type: InputType::KeyboardKey { key_code: KeyCode::KeyA },
        magnitude: num(1.0),
        discrete: true,
    };
    let second = InputSample {
        input_type: motion(InputDirection::NegativeHorizontal),
        magnitude: num(2.25),
        discrete: false,
    };
    let mut events = Vec::new();
    inputs.dispatch(&vec![first, second], &mut events);
    assert_eq!(
        events,
        vec![
            InputUpdateEvent { input_event: InputMappable::DirectionLeft },
            InputUpdateEvent { input_event: InputMappable::DirectionLeft },
        ]
    );
    let (m, d) = inputs.value(InputMappable::DirectionLeft);
    assert_eq!(val(m), 2.25);
    assert!(!d);
}

// Scenario: keyboard S pressed, with S bound to DirectionDown.
#[test]
fn key_s_bound_to_direction_down() {
    let mut inputs = Inputs::default();
    inputs.input_maps.insert(InputType::KeyboardKey { key_code: KeyCode::KeyS }, InputMappable::DirectionDown);
    let mut batch = empty_batch();
    batch.keyboard.push(KeyboardEvent { key_code: KeyCode::KeyS, state: ButtonState::Pressed });
    let mut events = Vec::new();
    parse_input(&batch, &mut inputs, &mut events);
    assert_eq!(events, vec![InputUpdateEvent { input_event: InputMappable::DirectionDown }]);
    let (m, d) = inputs.value(InputMappable::DirectionDown);
    assert_eq!(val(m), 1.0);
    assert!(d);
}

#[test]
fn key_s_unbound_in_default_map() {
    let mut inputs = Inputs::default();
    let before = snapshot(&inputs);
    let mut batch = empty_batch();
    batch.keyboard.push(KeyboardEvent { key_code: KeyCode::KeyS, state: ButtonState::Pressed });
    let mut events = Vec::new();
    parse_input(&batch, &mut inputs, &mut events);
    assert!(events.is_empty());
    assert_eq!(snapshot(&inputs), before);
}

// Scenario: mouse motion (-3.0, 0.0) under the default map.
#[test]
fn mouse_motion_through_default_map() {
    let mut inputs = Inputs::default();
    let mut batch = empty_batch();
    batch.mouse_motion.push(MouseMotionEvent { delta_x: num(-3.0), delta_y: num(0.0) });
    let samples = classify(&batch);
    assert_eq!(samples.len(), 2);
    let mut events = Vec::new();
    parse_input(&batch, &mut inputs, &mut events);
    assert_eq!(
        events,
        vec![
            InputUpdateEvent { input_event: InputMappable::DirectionLeft },
            InputUpdateEvent { input_event: InputMappable::DirectionUp },
        ]
    );
    assert_eq!(inputs.value(InputMappable::DirectionLeft).0.to_bits(), 3.0f32.to_bits());
    assert!(!inputs.value(InputMappable::DirectionLeft).1);
    assert_eq!(inputs.value(InputMappable::DirectionUp).0.to_bits(), 0);
    assert_eq!(inputs.value(InputMappable::DirectionRight).0.to_bits(), 0);
}

#[test]
fn classify_keeps_device_class_order() {
    let mut batch = empty_batch();
    batch.gamepad_axes.push(GamepadAxisEvent { axis_type: GamepadAxisType::RightStickY, value: num(0.5) });
    batch.gamepad_buttons.push(GamepadButtonEvent {
        button: GamepadButton::new(Gamepad::new(0), GamepadButtonType::East),
        state: ButtonState::Pressed,
    });
    batch.mouse_motion.push(MouseMotionEvent { delta_x: num(1.0), delta_y: num(-1.0) });
    batch.mouse_buttons.push(MouseButtonEvent { button: MouseButton::Right, state: ButtonState::Released });
    batch.keyboard.push(KeyboardEvent { key_code: KeyCode::KeyD, state: ButtonState::Pressed });
    batch.keyboard.push(KeyboardEvent { key_code: KeyCode::KeyA, state: ButtonState::Released });
    let s = classify(&batch);
    assert_eq!(s.len(), 7);
    assert!(s[0].input_type == InputType::KeyboardKey { key_code: KeyCode::KeyD });
    assert!(s[1].input_type == InputType::KeyboardKey { key_code: KeyCode::KeyA });
    assert!(s[2].input_type == InputType::MouseButton { button_code: MouseButton::Right });
    assert!(s[3].input_type == motion(InputDirection::PositiveHorizontal));
    assert!(s[4].input_type == motion(InputDirection::NegativeVertical));
    assert!(
        s[5].input_type
            == InputType::GamepadButton {
                button_code: GamepadButton::new(Gamepad::new(0), GamepadButtonType::East)
            }
    );
    assert!(
        s[6].input_type
            == InputType::GamepadAxis {
                axis: GamepadAxisType::RightStickY,
                axis_direction: InputDirection::PositiveVertical,
            }
    );
}

#[test]
fn default_state_is_zero_with_mouse_bindings() {
    let inputs = Inputs::default();
    for a in ALL_ACTIONS {
        let (m, d) = inputs.value(a);
        assert_eq!(m.to_bits(), 0);
        assert!(!d);
    }
    let m = &inputs.input_maps;
    assert_eq!(m.get(&motion(InputDirection::PositiveVertical)), Some(InputMappable::DirectionUp));
    assert_eq!(m.get(&motion(InputDirection::NegativeVertical)), Some(InputMappable::DirectionDown));
    assert_eq!(m.get(&motion(InputDirection::NegativeHorizontal)), Some(InputMappable::DirectionLeft));
    assert_eq!(m.get(&motion(InputDirection::PositiveHorizontal)), Some(InputMappable::DirectionRight));
    assert_eq!(m.get(&InputType::KeyboardKey { key_code: KeyCode::KeyW }), None);
}

#[test]
fn input_map_insert_replaces_and_keeps_keys_apart() {
    let mut m = InputMap::new();
    let w = InputType::KeyboardKey { key_code: KeyCode::KeyW };
    let s = InputType::KeyboardKey { key_code: KeyCode::KeyS };
    let left = InputType::MouseButton { button_code: MouseButton::Left };
    let pad = InputType::GamepadButton { button_code: GamepadButton::new(Gamepad::new(0), GamepadButtonType::South) };
    let pad2 = InputType::GamepadButton { button_code: GamepadButton::new(Gamepad::new(1), GamepadButtonType::South) };
    let axis = InputType::GamepadAxis { axis: GamepadAxisType::Other(1), axis_direction: InputDirection::NegativeHorizontal };
    let axis2 = InputType::GamepadAxis { axis: GamepadAxisType::Other(2), axis_direction: InputDirection::NegativeHorizontal };
    m.insert(w, InputMappable::DirectionUp);
    m.insert(left, InputMappable::LookDeltaRight);
    m.insert(pad, InputMappable::LookDeltaDown);
    m.insert(axis, InputMappable::LookDeltaUp);
    assert_eq!(m.get(&w), Some(InputMappable::DirectionUp));
    assert_eq!(m.get(&s), None);
    assert_eq!(m.get(&InputType::MouseButton { button_code: MouseButton::Right }), None);
    assert_eq!(m.get(&left), Some(InputMappable::LookDeltaRight));
    assert_eq!(m.get(&pad), Some(InputMappable::LookDeltaDown));
    assert_eq!(m.get(&pad2), None);
    assert_eq!(m.get(&axis), Some(InputMappable::LookDeltaUp));
    assert_eq!(m.get(&axis2), None);
    m.insert(w, InputMappable::DirectionDown);
    assert_eq!(m.get(&w), Some(InputMappable::DirectionDown));
}

#[test]
fn scalar_abs_and_sign() {
    assert_eq!(val(num(-1.5).abs()), 1.5);
    assert_eq!(val(num(2.0).abs()), 2.0);
    assert!(num(0.0).is_nonneg());
    assert!(num(-0.0).is_nonneg());
    assert!(num(f32::INFINITY).is_nonneg());
    assert!(!num(f32::NEG_INFINITY).is_nonneg());
    assert!(!num(-1e-30).is_nonneg());
    assert!(!num(f32::NAN).is_nonneg());
    assert_eq!(val(Scalar::one()), 1.0);
    assert_eq!(val(Scalar::zero()), 0.0);
}
