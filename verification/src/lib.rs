//! Compositing of a terminal emulator's screen onto a rectangular region of a
//! character-cell drawing surface.
//!
//! The library models the destination surface, styles and areas as plain
//! values, takes the emulator's state through the [`screen::Screen`] and
//! [`screen::Cell`] capabilities, and proves that one render call produces
//! exactly the composition described by the configuration: clear, decoration,
//! baseline fill, per-cell content, cursor overlay.

pub mod area;
pub mod compose;
pub mod decoration;
pub mod laws;
pub mod screen;
pub mod style;
pub mod surface;
pub mod widget;
