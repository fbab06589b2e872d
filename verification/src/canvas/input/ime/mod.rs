//! Input-method support of the canvas.

pub mod macos;
