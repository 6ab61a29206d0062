//! bevy's input types as the library sees them, and the few bevy functions
//! that the classifier and the binding table call.
use vstd::prelude::*;

use bevy::input::gamepad::{GamepadAxisType, GamepadButton};
use bevy::input::keyboard::KeyCode;
use bevy::input::mouse::MouseButton;
use bevy::input::ButtonState;

verus! {

/// bevy's physical key code, carried through as an opaque value.
#[verifier::external_type_specification]
#[verifier::external_body]
pub struct ExKeyCode(KeyCode);

/// bevy's mouse button, carried through as an opaque value.
#[verifier::external_type_specification]
#[verifier::external_body]
pub struct ExMouseButton(MouseButton);

/// bevy's gamepad button (gamepad and button type), carried through as an
/// opaque value.
#[verifier::external_type_specification]
#[verifier::external_body]
pub struct ExGamepadButton(GamepadButton);

/// bevy's gamepad axis; its variants are visible, the classifier reads them.
#[verifier::external_type_specification]
pub struct ExGamepadAxisType(GamepadAxisType);

/// bevy's press state of a button; its two variants are visible.
#[verifier::external_type_specification]
pub struct ExButtonState(ButtonState);

/// Relies on bevy's `ButtonState::is_pressed`: true for `Pressed` alone.
pub assume_specification[ ButtonState::is_pressed ](s: &ButtonState) -> (r: bool)
    ensures
        r == (*s == ButtonState::Pressed),
;

/// Relies on the derived `PartialEq` of bevy's `KeyCode`, which compares the
/// variant and its native code field by field.
#[verifier::external_body]
pub(crate) fn key_code_eq(a: &KeyCode, b: &KeyCode) -> (r: bool)
    ensures
        r == (*a == *b),
{
    a == b
}

/// Relies on the derived `PartialEq` of bevy's `MouseButton`, which compares
/// the variant and its button number.
#[verifier::external_body]
pub(crate) fn mouse_button_eq(a: &MouseButton, b: &MouseButton) -> (r: bool)
    ensures
        r == (*a == *b),
{
    a == b
}

/// Relies on the derived `PartialEq` of bevy's `GamepadButton`, which compares
/// the gamepad id and the button type field by field.
#[verifier::external_body]
pub(crate) fn gamepad_button_eq(a: &GamepadButton, b: &GamepadButton) -> (r: bool)
    ensures
        r == (*a == *b),
{
    a == b
}

/// Relies on the derived `PartialEq` of bevy's `GamepadAxisType`, which
/// compares the variant and its axis number.
#[verifier::external_body]
pub(crate) fn gamepad_axis_eq(a: &GamepadAxisType, b: &GamepadAxisType) -> (r: bool)
    ensures
        r == (*a == *b),
{
    a == b
}

} // verus!
