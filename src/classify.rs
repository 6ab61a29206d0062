//! The classifier: turns one tick's raw device events into samples.
use vstd::prelude::*;

use bevy::input::gamepad::{GamepadAxisType, GamepadButton};
use bevy::input::keyboard::KeyCode;
use bevy::input::mouse::MouseButton;
use bevy::input::ButtonState;

use crate::scalar::{Scalar, ONE_BITS};
use crate::types::{InputDirection, InputSample, InputType};

verus! {

/// A key went down or up.
#[derive(Clone, Copy, Debug)]
pub struct KeyboardEvent {
    pub key_code: KeyCode,
    pub state: ButtonState,
}

/// A mouse button went down or up.
#[derive(Clone, Copy, Debug)]
pub struct MouseButtonEvent {
    pub button: MouseButton,
    pub state: ButtonState,
}

/// The mouse moved by the given delta.
#[derive(Clone, Copy, Debug)]
pub struct MouseMotionEvent {
    pub delta_x: Scalar,
    pub delta_y: Scalar,
}

/// A gamepad button went down or up.
#[derive(Clone, Copy, Debug)]
pub struct GamepadButtonEvent {
    pub button: GamepadButton,
    pub state: ButtonState,
}

/// A gamepad axis took a new value.
#[derive(Clone, Copy, Debug)]
pub struct GamepadAxisEvent {
    pub axis_type: GamepadAxisType,
    pub value: Scalar,
}

/// The raw events of one tick, grouped by device class.
#[derive(Debug)]
pub struct InputBatch {
    pub keyboard: Vec<KeyboardEvent>,
    pub mouse_buttons: Vec<MouseButtonEvent>,
    pub mouse_motion: Vec<MouseMotionEvent>,
    pub gamepad_buttons: Vec<GamepadButtonEvent>,
    pub gamepad_axes: Vec<GamepadAxisEvent>,
}

/// One for a pressed button, zero for a released one.
pub open spec fn press_magnitude(state: ButtonState) -> Scalar {
    if state == ButtonState::Pressed {
        Scalar { bits: ONE_BITS }
    } else {
        Scalar { bits: 0 }
    }
}

/// Horizontal polarity of a signed value: positive for values at or above zero.
pub open spec fn horizontal_of(v: Scalar) -> InputDirection {
    if v.spec_is_nonneg() {
        InputDirection::PositiveHorizontal
    } else {
        InputDirection::NegativeHorizontal
    }
}

/// Vertical polarity of a signed value: positive for values at or above zero.
pub open spec fn vertical_of(v: Scalar) -> InputDirection {
    if v.spec_is_nonneg() {
        InputDirection::PositiveVertical
    } else {
        InputDirection::NegativeVertical
    }
}

/// The direction of a gamepad axis value: the sticks' X axes are horizontal,
/// their Y axes vertical, and every other axis counts as negative horizontal.
pub open spec fn axis_direction_of(axis: GamepadAxisType, value: Scalar) -> InputDirection {
    match axis {
        GamepadAxisType::LeftStickX | GamepadAxisType::RightStickX => horizontal_of(value),
        GamepadAxisType::LeftStickY | GamepadAxisType::RightStickY => vertical_of(value),
        _ => InputDirection::NegativeHorizontal,
    }
}

pub open spec fn keyboard_sample(e: KeyboardEvent) -> InputSample {
    InputSample {
        input_type: InputType::KeyboardKey { key_code: e.key_code },
        magnitude: press_magnitude(e.state),
        discrete: true,
    }
}

pub open spec fn mouse_button_sample(e: MouseButtonEvent) -> InputSample {
    InputSample {
        input_type: InputType::MouseButton { button_code: e.button },
        magnitude: press_magnitude(e.state),
        discrete: true,
    }
}

/// The horizontal half of a mouse motion: its polarity and absolute value.
pub open spec fn motion_x_sample(e: MouseMotionEvent) -> InputSample {
    InputSample {
        input_type: InputType::MouseMovement { direction: horizontal_of(e.delta_x) },
        magnitude: e.delta_x.spec_abs(),
        discrete: false,
    }
}

/// The vertical half of a mouse motion: a delta at or above zero counts as
/// positive vertical.
pub open spec fn motion_y_sample(e: MouseMotionEvent) -> InputSample {
    InputSample {
        input_type: InputType::MouseMovement { direction: vertical_of(e.delta_y) },
        magnitude: e.delta_y.spec_abs(),
        discrete: false,
    }
}

pub open spec fn gamepad_button_sample(e: GamepadButtonEvent) -> InputSample {
    InputSample {
        input_type: InputType::GamepadButton { button_code: e.button },
        magnitude: press_magnitude(e.state),
        discrete: true,
    }
}

/// A gamepad axis sample keeps the raw signed value as its magnitude.
pub open spec fn gamepad_axis_sample(e: GamepadAxisEvent) -> InputSample {
    InputSample {
        input_type: InputType::GamepadAxis {
            axis: e.axis_type,
            axis_direction: axis_direction_of(e.axis_type, e.value),
        },
        magnitude: e.value,
        discrete: false,
    }
}

/// The samples of a run of mouse motions: two per motion, horizontal first.
pub open spec fn motion_samples(s: Seq<MouseMotionEvent>) -> Seq<InputSample>
    decreases s.len(),
{
    if s.len() == 0 {
        Seq::empty()
    } else {
        motion_samples(s.drop_last()) + seq![motion_x_sample(s.last()), motion_y_sample(s.last())]
    }
}

/// Every mouse motion gives exactly two samples.
proof fn lemma_motion_samples_len(s: Seq<MouseMotionEvent>)
    ensures
        motion_samples(s).len() == 2 * s.len(),
    decreases s.len(),
{
    if s.len() > 0 {
        lemma_motion_samples_len(s.drop_last());
    }
}

/// The samples of a batch: keyboard, mouse buttons, mouse motion, gamepad
/// buttons, gamepad axes, each class in the order its events came.
pub open spec fn batch_samples(b: InputBatch) -> Seq<InputSample> {
    b.keyboard@.map_values(|e: KeyboardEvent| keyboard_sample(e)) + b.mouse_buttons@.map_values(
        |e: MouseButtonEvent| mouse_button_sample(e),
    ) + motion_samples(b.mouse_motion@) + b.gamepad_buttons@.map_values(
        |e: GamepadButtonEvent| gamepad_button_sample(e),
    ) + b.gamepad_axes@.map_values(|e: GamepadAxisEvent| gamepad_axis_sample(e))
}

fn press_value(state: &ButtonState) -> (r: Scalar)
    ensures
        r == press_magnitude(*state),
{
    if state.is_pressed() {
        Scalar::one()
    } else {
        Scalar::zero()
    }
}

/// Classifies a key event: magnitude one when pressed, zero when released,
/// always discrete.
pub fn classify_keyboard(e: &KeyboardEvent) -> (r: InputSample)
    ensures
        r == keyboard_sample(*e),
        r.discrete,
        e.state == ButtonState::Pressed ==> r.magnitude.bits == ONE_BITS,
        e.state == ButtonState::Released ==> r.magnitude.bits == 0,
{
    InputSample {
        input_type: InputType::KeyboardKey { key_code: e.key_code },
        magnitude: press_value(&e.state),
        discrete: true,
    }
}

/// Classifies a mouse button event: magnitude one when pressed, zero when
/// released, always discrete.
pub fn classify_mouse_button(e: &MouseButtonEvent) -> (r: InputSample)
    ensures
        r == mouse_button_sample(*e),
        r.discrete,
        e.state == ButtonState::Pressed ==> r.magnitude.bits == ONE_BITS,
        e.state == ButtonState::Released ==> r.magnitude.bits == 0,
{
    InputSample {
        input_type: InputType::MouseButton { button_code: e.button },
        magnitude: press_value(&e.state),
        discrete: true,
    }
}

/// Classifies a gamepad button event: magnitude one when pressed, zero when
/// released, always discrete.
pub fn classify_gamepad_button(e: &GamepadButtonEvent) -> (r: InputSample)
    ensures
        r == gamepad_button_sample(*e),
        r.discrete,
        e.state == ButtonState::Pressed ==> r.magnitude.bits == ONE_BITS,
        e.state == ButtonState::Released ==> r.magnitude.bits == 0,
{
    InputSample {
        input_type: InputType::GamepadButton { button_code: e.button },
        magnitude: press_value(&e.state),
        discrete: true,
    }
}

/// Splits a mouse motion into a horizontal and a vertical sample, each with
/// the absolute value of its delta; a delta at or above zero is positive.
pub fn classify_mouse_motion(e: &MouseMotionEvent) -> (r: (InputSample, InputSample))
    ensures
        r.0 == motion_x_sample(*e),
        r.1 == motion_y_sample(*e),
        r.0.magnitude == e.delta_x.spec_abs(),
        r.1.magnitude == e.delta_y.spec_abs(),
        !r.0.discrete && !r.1.discrete,
        r.0.input_type == (InputType::MouseMovement { direction: horizontal_of(e.delta_x) }),
        r.1.input_type == (InputType::MouseMovement { direction: vertical_of(e.delta_y) }),
{
    let x_direction = if e.delta_x.is_nonneg() {
        InputDirection::PositiveHorizontal
    } else {
        InputDirection::NegativeHorizontal
    };
    let y_direction = if e.delta_y.is_nonneg() {
        InputDirection::PositiveVertical
    } else {
        InputDirection::NegativeVertical
    };
    (
        InputSample {
            input_type: InputType::MouseMovement { direction: x_direction },
            magnitude: e.delta_x.abs(),
            discrete: false,
        },
        InputSample {
            input_type: InputType::MouseMovement { direction: y_direction },
            magnitude: e.delta_y.abs(),
            discrete: false,
        },
    )
}

/// The direction of a gamepad axis value: by the value's sign on the sticks'
/// axes, negative horizontal on any other axis.
pub fn axis_direction(axis: &GamepadAxisType, value: Scalar) -> (r: InputDirection)
    ensures
        r == axis_direction_of(*axis, value),
        (*axis == GamepadAxisType::LeftStickX || *axis == GamepadAxisType::RightStickX)
            ==> r == horizontal_of(value),
        (*axis == GamepadAxisType::LeftStickY || *axis == GamepadAxisType::RightStickY)
            ==> r == vertical_of(value),
        !(*axis == GamepadAxisType::LeftStickX || *axis == GamepadAxisType::RightStickX
            || *axis == GamepadAxisType::LeftStickY || *axis == GamepadAxisType::RightStickY)
            ==> r == InputDirection::NegativeHorizontal,
{
    match axis {
        GamepadAxisType::LeftStickX | GamepadAxisType::RightStickX => {
            if value.is_nonneg() {
                InputDirection::PositiveHorizontal
            } else {
                InputDirection::NegativeHorizontal
            }
        },
        GamepadAxisType::LeftStickY | GamepadAxisType::RightStickY => {
            if value.is_nonneg() {
                InputDirection::PositiveVertical
            } else {
                InputDirection::NegativeVertical
            }
        },
        _ => InputDirection::NegativeHorizontal,
    }
}

/// Classifies a gamepad axis event; the magnitude is the raw signed value.
pub fn classify_gamepad_axis(e: &GamepadAxisEvent) -> (r: InputSample)
    ensures
        r == gamepad_axis_sample(*e),
        r.magnitude == e.value,
        !r.discrete,
{
    InputSample {
        input_type: InputType::GamepadAxis {
            axis: e.axis_type,
            axis_direction: axis_direction(&e.axis_type, e.value),
        },
        magnitude: e.value,
        discrete: false,
    }
}

fn push_keyboard(events: &Vec<KeyboardEvent>, out: &mut Vec<InputSample>)
    ensures
        final(out)@ == old(out)@ + events@.map_values(|e: KeyboardEvent| keyboard_sample(e)),
{
    let ghost start = out@;
    let mut i: usize = 0;
    while i < events.len()
        invariant
            i <= events.len(),
            out@ == start + events@.subrange(0, i as int).map_values(
                |e: KeyboardEvent| keyboard_sample(e),
            ),
        decreases events.len() - i,
    {
        out.push(classify_keyboard(&events[i]));
        assert(events@.subrange(0, i + 1).map_values(|e: KeyboardEvent| keyboard_sample(e))
            =~= events@.subrange(0, i as int).map_values(|e: KeyboardEvent| keyboard_sample(e)).push(
            keyboard_sample(events@[i as int]),
        ));
        i = i + 1;
    }
    assert(events@.subrange(0, i as int) =~= events@);
}

fn push_mouse_buttons(events: &Vec<MouseButtonEvent>, out: &mut Vec<InputSample>)
    ensures
        final(out)@ == old(out)@ + events@.map_values(
            |e: MouseButtonEvent| mouse_button_sample(e),
        ),
{
    let ghost start = out@;
    let mut i: usize = 0;
    while i < events.len()
        invariant
            i <= events.len(),
            out@ == start + events@.subrange(0, i as int).map_values(
                |e: MouseButtonEvent| mouse_button_sample(e),
            ),
        decreases events.len() - i,
    {
        out.push(classify_mouse_button(&events[i]));
        assert(events@.subrange(0, i + 1).map_values(|e: MouseButtonEvent| mouse_button_sample(e))
            =~= events@.subrange(0, i as int).map_values(
            |e: MouseButtonEvent| mouse_button_sample(e),
        ).push(mouse_button_sample(events@[i as int])));
        i = i + 1;
    }
    assert(events@.subrange(0, i as int) =~= events@);
}

fn push_mouse_motion(events: &Vec<MouseMotionEvent>, out: &mut Vec<InputSample>)
    ensures
        final(out)@ == old(out)@ + motion_samples(events@),
{
    let ghost start = out@;
    let mut i: usize = 0;
    while i < events.len()
        invariant
            i <= events.len(),
            out@ == start + motion_samples(events@.subrange(0, i as int)),
        decreases events.len() - i,
    {
        let (x, y) = classify_mouse_motion(&events[i]);
        out.push(x);
        out.push(y);
        assert(events@.subrange(0, i + 1).drop_last() =~= events@.subrange(0, i as int));
        assert(out@ =~= start + motion_samples(events@.subrange(0, i + 1)));
        i = i + 1;
    }
    assert(events@.subrange(0, i as int) =~= events@);
}

fn push_gamepad_buttons(events: &Vec<GamepadButtonEvent>, out: &mut Vec<InputSample>)
    ensures
        final(out)@ == old(out)@ + events@.map_values(
            |e: GamepadButtonEvent| gamepad_button_sample(e),
        ),
{
    let ghost start = out@;
    let mut i: usize = 0;
    while i < events.len()
        invariant
            i <= events.len(),
            out@ == start + events@.subrange(0, i as int).map_values(
                |e: GamepadButtonEvent| gamepad_button_sample(e),
            ),
        decreases events.len() - i,
    {
        out.push(classify_gamepad_button(&events[i]));
        assert(events@.subrange(0, i + 1).map_values(
            |e: GamepadButtonEvent| gamepad_button_sample(e),
        ) =~= events@.subrange(0, i as int).map_values(
            |e: GamepadButtonEvent| gamepad_button_sample(e),
        ).push(gamepad_button_sample(events@[i as int])));
        i = i + 1;
    }
    assert(events@.subrange(0, i as int) =~= events@);
}

fn push_gamepad_axes(events: &Vec<GamepadAxisEvent>, out: &mut Vec<InputSample>)
    ensures
        final(out)@ == old(out)@ + events@.map_values(
            |e: GamepadAxisEvent| gamepad_axis_sample(e),
        ),
{
    let ghost start = out@;
    let mut i: usize = 0;
    while i < events.len()
        invariant
            i <= events.len(),
            out@ == start + events@.subrange(0, i as int).map_values(
                |e: GamepadAxisEvent| gamepad_axis_sample(e),
            ),
        decreases events.len() - i,
    {
        out.push(classify_gamepad_axis(&events[i]));
        assert(events@.subrange(0, i + 1).map_values(|e: GamepadAxisEvent| gamepad_axis_sample(e))
            =~= events@.subrange(0, i as int).map_values(
            |e: GamepadAxisEvent| gamepad_axis_sample(e),
        ).push(gamepad_axis_sample(events@[i as int])));
        i = i + 1;
    }
    assert(events@.subrange(0, i as int) =~= events@);
}

/// Classifies one tick's events: keyboard first, then mouse buttons, mouse
/// motion (two samples each), gamepad buttons and gamepad axes, each class in
/// the order its events came.
pub fn classify(batch: &InputBatch) -> (r: Vec<InputSample>)
    ensures
        r@ == batch_samples(*batch),
        r@.len() == batch.keyboard@.len() + batch.mouse_buttons@.len() + 2
            * batch.mouse_motion@.len() + batch.gamepad_buttons@.len()
            + batch.gamepad_axes@.len(),
{
    proof {
        lemma_motion_samples_len(batch.mouse_motion@);
    }
    let mut out: Vec<InputSample> = Vec::new();
    push_keyboard(&batch.keyboard, &mut out);
    push_mouse_buttons(&batch.mouse_buttons, &mut out);
    push_mouse_motion(&batch.mouse_motion, &mut out);
    push_gamepad_buttons(&batch.gamepad_buttons, &mut out);
    push_gamepad_axes(&batch.gamepad_axes, &mut out);
    assert(out@ =~= batch_samples(*batch));
    out
}

} // verus!
