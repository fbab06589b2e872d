//! Keyboard, pointer and input-method handling of the canvas.

pub mod keyboard;
pub mod keyboard_shortcuts;
pub mod gesture_click;
pub mod ime;
