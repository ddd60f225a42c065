//! Input and state handling for keyboard events.

mod codes;
mod event;
mod keyboard;
pub mod laws;
pub mod model;
mod pressed;
pub mod text;

pub use codes::KeyCode;
pub use event::{KeyEvent, KeystrokeFlags};
pub use keyboard::{InputBuffer, Keyboard};
pub use model::{KeyboardState, INPUT_QUEUE_CAPACITY};
