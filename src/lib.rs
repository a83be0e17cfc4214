//! Input bridge between a windowing layer's event stream and an
//! immediate-mode UI library's per-frame input snapshot.
pub mod event;
pub mod keymap;
pub mod ui_input;
pub mod bridge;
pub mod laws;

