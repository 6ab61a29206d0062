//! The values that flow through the pipeline: input types (the binding
//! table's keys), actions, classified samples and update events.
use vstd::prelude::*;

use bevy::input::gamepad::{GamepadAxisType, GamepadButton};
use bevy::input::keyboard::KeyCode;
use bevy::input::mouse::MouseButton;

use crate::device::{gamepad_axis_eq, gamepad_button_eq, key_code_eq, mouse_button_eq};
use crate::scalar::Scalar;

verus! {

/// The polarity of a signed axis: one of two per axis, so that "pushed right"
/// and "pushed left" can be bound independently.
#[derive(Clone, Copy, Debug, PartialEq, Eq, Structural, Hash)]
pub enum InputDirection {
    PositiveHorizontal,
    NegativeHorizontal,
    PositiveVertical,
    NegativeVertical,
}

/// A classified physical input; the key of the binding table.
#[allow(inconsistent_fields)]
#[derive(Clone, Copy, Debug, Hash)]
pub enum InputType {
    KeyboardKey { key_code: KeyCode },
    MouseButton { button_code: MouseButton },
    MouseMovement { direction: InputDirection },
    GamepadButton { button_code: GamepadButton },
    GamepadAxis { axis: GamepadAxisType, axis_direction: InputDirection },
}

impl PartialEq for InputType {
    /// Equal when the variant and every field are equal.
    fn eq(&self, other: &InputType) -> (r: bool) {
        match (self, other) {
            (InputType::KeyboardKey { key_code: a }, InputType::KeyboardKey { key_code: b }) => {
                key_code_eq(a, b)
            },
            (
                InputType::MouseButton { button_code: a },
                InputType::MouseButton { button_code: b },
            ) => mouse_button_eq(a, b),
            (
                InputType::MouseMovement { direction: a },
                InputType::MouseMovement { direction: b },
            ) => *a == *b,
            (
                InputType::GamepadButton { button_code: a },
                InputType::GamepadButton { button_code: b },
            ) => gamepad_button_eq(a, b),
            (
                InputType::GamepadAxis { axis: a, axis_direction: da },
                InputType::GamepadAxis { axis: b, axis_direction: db },
            ) => gamepad_axis_eq(a, b) && *da == *db,
            _ => false,
        }
    }
}

impl vstd::std_specs::cmp::PartialEqSpecImpl for InputType {
    open spec fn obeys_eq_spec() -> bool {
        true
    }

    open spec fn eq_spec(&self, other: &InputType) -> bool {
        *self == *other
    }
}

impl Eq for InputType {

}

/// An abstract, device-independent action.
#[derive(Clone, Copy, Debug, PartialEq, Eq, Structural, Hash)]
pub enum InputMappable {
    DirectionUp,
    DirectionDown,
    DirectionLeft,
    DirectionRight,
    LookDeltaLeft,
    LookDeltaRight,
    LookDeltaUp,
    LookDeltaDown,
}

/// The notification that an action was just updated.
#[derive(Clone, Copy, Debug, PartialEq, Eq, Structural, Hash)]
pub struct InputUpdateEvent {
    pub input_event: InputMappable,
}

/// A classified input: the input type, its magnitude, and whether it comes
/// from a discrete (button-like) source.
#[derive(Clone, Copy, Debug)]
pub struct InputSample {
    pub input_type: InputType,
    pub magnitude: Scalar,
    pub discrete: bool,
}

} // verus!
