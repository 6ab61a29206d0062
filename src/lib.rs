//! Input mapping: raw device events are classified into input types, looked
//! up in a binding table, and stored per action while an update event is
//! emitted for each bound input.

pub mod classify;
mod device;
pub mod input_map;
pub mod scalar;
pub mod state;
pub mod types;

pub use classify::{
    axis_direction, classify, classify_gamepad_axis, classify_gamepad_button, classify_keyboard,
    classify_mouse_button, classify_mouse_motion, GamepadAxisEvent, GamepadButtonEvent,
    InputBatch, KeyboardEvent, MouseButtonEvent, MouseMotionEvent,
};
pub use input_map::InputMap;
pub use scalar::Scalar;
pub use state::{parse_input, Inputs};
pub use types::{InputDirection, InputMappable, InputSample, InputType, InputUpdateEvent};
