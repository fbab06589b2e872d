//! Canvas editing state: text editing, selection, keyboard commands and tools.

pub mod text_editor;
pub mod selection;
pub mod keyboard;
pub mod tools;
pub mod rendering_selection;
pub mod mouse;
pub mod snapping;
pub mod grid_rendering;
pub mod input;
pub mod page_thumbnail;
