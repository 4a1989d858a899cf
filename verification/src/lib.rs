//! A fixed-grid, multi-window text editor overlay.
//!
//! Four bounded text windows share one character-cell display. Keyboard
//! events select the active window or append text to it; each tick the
//! whole scene (text, cursor, borders, labels) is recomposed as a list
//! of cell writes for the display driver to perform.

pub mod display;
pub mod document;
pub mod interface;
pub mod render;
