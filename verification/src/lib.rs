//! Window tools for X11: the decisions of a small Xlib client, kept apart
//! from the calls.
//!
//! The library opens no connection and makes no call. It says which call of
//! Xlib is due, and what follows from the answer: see [`task`]. Around that
//! stand the values that the calls carry: window identifiers and colours as
//! text, batches of changes, points and rectangles.

pub mod cli;
pub mod color;
pub mod display;
pub mod err;
pub mod ffi;
pub mod hex;
pub mod protocol;
pub mod screen;
pub mod shapes;
pub mod task;
pub mod window;

pub use color::Color;
pub use display::Display;
pub use err::Error;
pub use screen::Screen;
pub use window::Window;
