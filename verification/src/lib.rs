//! Keyboard and text-input state tracking for native windows.
//!
//! The [`input::keyboard`] module turns the stream of key and character
//! notifications that a window receives into a table of pressed keys and a
//! bounded buffer of decoded text. The [`window`] module holds the plain
//! description of a window message that those notifications arrive in, and
//! [`proc`] keeps count of who holds the COM library of a thread.

pub mod input;
pub mod proc;
pub mod window;
