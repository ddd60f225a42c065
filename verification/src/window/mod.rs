//! Window messages as plain values.

use crate::input::keyboard::KeyEvent;
use vstd::prelude::*;

verus! {

/// Identifier of the message that asks a window to paint itself.
pub const WM_PAINT: u32 = 0x000F;

/// Identifier of the message that asks a window to close.
pub const WM_CLOSE: u32 = 0x0010;

/// Identifier of the last message that a window receives as it is destroyed.
pub const WM_NCDESTROY: u32 = 0x0082;

/// Identifier of the message sent when a key is pressed.
pub const WM_KEYDOWN: u32 = 0x0100;

/// Identifier of the message sent when a key is released.
pub const WM_KEYUP: u32 = 0x0101;

/// Identifier of the message that carries one code unit of committed text.
pub const WM_CHAR: u32 = 0x0102;

/// Identifier of the message sent when a key is pressed while Alt is held.
pub const WM_SYSKEYDOWN: u32 = 0x0104;

/// Identifier of the message sent when a key is released while Alt is held.
pub const WM_SYSKEYUP: u32 = 0x0105;

/// A message as the window procedure receives it: an identifier and two
/// machine words whose meaning depends on the identifier.
#[derive(Clone, Copy, Debug, PartialEq, Eq, Structural)]
pub struct WindowsProcessMessage {
    /// The message identifier.
    pub umsg: u32,
    /// The first parameter word.
    pub wparam: usize,
    /// The second parameter word.
    pub lparam: isize,
}

impl WindowsProcessMessage {
    /// The message identifier.
    pub fn identifier(&self) -> (id: u32)
        ensures
            id == self.umsg,
    {
        self.umsg
    }

    /// The first parameter word.
    pub fn wparam(&self) -> (word: usize)
        ensures
            word == self.wparam,
    {
        self.wparam
    }

    /// The second parameter word.
    pub fn lparam(&self) -> (word: isize)
        ensures
            word == self.lparam,
    {
        self.lparam
    }
}

/// What a window does with a message that it receives.
#[derive(Clone, Copy, Debug, PartialEq, Eq, Structural)]
pub enum MessageAction {
    /// The message is a key event: it goes to the keyboard. The event is
    /// `None` where the message names a key that is not known.
    Keyboard(Option<KeyEvent>),
    /// The window is asked to paint: it notes the request.
    RequestPaint,
    /// The window is asked to close: it notes the request.
    RequestClose,
    /// The window is being destroyed: it lets go of what it holds.
    Destroy,
    /// The message is of no concern to the window.
    Ignore,
}

impl MessageAction {
    /// The action that `msg` calls for. Key events come first; of the other
    /// messages only three identifiers call for anything.
    pub open spec fn spec_of(msg: WindowsProcessMessage) -> MessageAction {
        if KeyEvent::spec_is_key_event(msg) {
            MessageAction::Keyboard(KeyEvent::spec_new(msg))
        } else if msg.umsg == WM_PAINT {
            MessageAction::RequestPaint
        } else if msg.umsg == WM_CLOSE {
            MessageAction::RequestClose
        } else if msg.umsg == WM_NCDESTROY {
            MessageAction::Destroy
        } else {
            MessageAction::Ignore
        }
    }

    /// Whether the action deals with the message for good. A message that is
    /// not handled is passed on to the default window procedure: that holds
    /// of a paint request and of the destruction too, which the window only
    /// takes note of.
    pub open spec fn spec_is_handled(self) -> bool {
        self is Keyboard || self is RequestClose
    }

    /// Decides what a window does with `msg`.
    #[verifier::when_used_as_spec(spec_of)]
    pub fn of(msg: WindowsProcessMessage) -> (action: MessageAction)
        ensures
            action == MessageAction::spec_of(msg),
    {
        if KeyEvent::is_key_event(msg) {
            MessageAction::Keyboard(KeyEvent::new(msg))
        } else if msg.identifier() == WM_PAINT {
            MessageAction::RequestPaint
        } else if msg.identifier() == WM_CLOSE {
            MessageAction::RequestClose
        } else if msg.identifier() == WM_NCDESTROY {
            MessageAction::Destroy
        } else {
            MessageAction::Ignore
        }
    }

    /// Returns `true` if the message was handled and is not to be forwarded
    /// to the default window procedure.
    #[verifier::when_used_as_spec(spec_is_handled)]
    pub fn is_handled(self) -> (handled: bool)
        ensures
            handled == self.spec_is_handled(),
    {
        match self {
            MessageAction::Keyboard(_) => true,
            MessageAction::RequestClose => true,
            MessageAction::RequestPaint => false,
            MessageAction::Destroy => false,
            MessageAction::Ignore => false,
        }
    }
}

} // verus!
