//! Typed keyboard events, made from raw window messages.

use super::codes::KeyCode;
use crate::window::{
    WindowsProcessMessage, WM_CHAR, WM_KEYDOWN, WM_KEYUP, WM_SYSKEYDOWN, WM_SYSKEYUP,
};
use vstd::prelude::*;

verus! {

/// The flags that accompany every keystroke message.
///
/// They are packed into one 32-bit word:
///
/// | bits  | field                     |
/// |-------|---------------------------|
/// | 31    | `is_key_release`          |
/// | 30    | `was_previous_state_down` |
/// | 29    | `is_alt_pressed`          |
/// | 25-28 | unused                    |
/// | 24    | `is_extended_key`         |
/// | 16-23 | `scan_code`               |
/// | 0-15  | `repeat_count`            |
#[derive(Clone, Copy, Debug, PartialEq, Eq, Structural)]
pub struct KeystrokeFlags {
    /// The transition state: set when the key is being released, clear when
    /// it is being pressed.
    pub is_key_release: bool,
    /// The previous key state: set when the key was down before the message
    /// was sent.
    pub was_previous_state_down: bool,
    /// The context code: set when Alt is held while the key is pressed.
    pub is_alt_pressed: bool,
    /// Set for an extended key, such as the right-hand Alt and Ctrl keys.
    pub is_extended_key: bool,
    /// The scan code, whose value depends on the keyboard's maker.
    pub scan_code: u8,
    /// How often the keystroke repeats in this message because the key is
    /// held down.
    pub repeat_count: u16,
}

impl KeystrokeFlags {
    /// The flags that the word `bits` holds, field by field. The unused bits
    /// have no part in it.
    pub open spec fn spec_from_raw(bits: u32) -> KeystrokeFlags {
        KeystrokeFlags {
            is_key_release: bits / 0x8000_0000 % 2 == 1,
            was_previous_state_down: bits / 0x4000_0000 % 2 == 1,
            is_alt_pressed: bits / 0x2000_0000 % 2 == 1,
            is_extended_key: bits / 0x0100_0000 % 2 == 1,
            scan_code: (bits / 0x1_0000 % 0x100) as u8,
            repeat_count: (bits % 0x1_0000) as u16,
        }
    }

    /// Decodes the flags from their packed form. Every word decodes.
    pub fn from_raw(bits: u32) -> (flags: KeystrokeFlags)
        ensures
            flags == KeystrokeFlags::spec_from_raw(bits),
    {
        assert(((bits >> 31) & 1 == 1) == (bits / 0x8000_0000 % 2 == 1)) by (bit_vector);
        assert(((bits >> 30) & 1 == 1) == (bits / 0x4000_0000 % 2 == 1)) by (bit_vector);
        assert(((bits >> 29) & 1 == 1) == (bits / 0x2000_0000 % 2 == 1)) by (bit_vector);
        assert(((bits >> 24) & 1 == 1) == (bits / 0x0100_0000 % 2 == 1)) by (bit_vector);
        assert((bits >> 16) & 0xFF == bits / 0x1_0000 % 0x100) by (bit_vector);
        assert(bits & 0xFFFF == bits % 0x1_0000) by (bit_vector);
        assert((bits >> 16) & 0xFF < 0x100) by (bit_vector);
        assert(bits & 0xFFFF < 0x1_0000) by (bit_vector);
        KeystrokeFlags {
            is_key_release: (bits >> 31) & 1 == 1,
            was_previous_state_down: (bits >> 30) & 1 == 1,
            is_alt_pressed: (bits >> 29) & 1 == 1,
            is_extended_key: (bits >> 24) & 1 == 1,
            scan_code: ((bits >> 16) & 0xFF) as u8,
            repeat_count: (bits & 0xFFFF) as u16,
        }
    }
}

/// The bits of a flags word that hold no field: bits 25 to 28.
pub const UNUSED_FLAG_BITS: u32 = 0x1E00_0000;

/// Two words that differ in the unused bits only hold the same flags.
pub proof fn lemma_unused_bits_are_ignored(a: u32, b: u32)
    requires
        a & !UNUSED_FLAG_BITS == b & !UNUSED_FLAG_BITS,
    ensures
        KeystrokeFlags::spec_from_raw(a) == KeystrokeFlags::spec_from_raw(b),
{
    assert(a / 0x8000_0000 % 2 == b / 0x8000_0000 % 2 && a / 0x4000_0000 % 2 == b / 0x4000_0000
        % 2 && a / 0x2000_0000 % 2 == b / 0x2000_0000 % 2 && a / 0x0100_0000 % 2 == b
        / 0x0100_0000 % 2 && a / 0x1_0000 % 0x100 == b / 0x1_0000 % 0x100 && a % 0x1_0000 == b
        % 0x1_0000) by (bit_vector)
        requires
            a & !0x1E00_0000u32 == b & !0x1E00_0000u32,
    ;
}

impl From<isize> for KeystrokeFlags {
    /// Decodes the flags from the low 32 bits of a message's second parameter.
    fn from(lparam: isize) -> (flags: KeystrokeFlags) {
        KeystrokeFlags::from_raw(#[verifier::truncate] (lparam as u32))
    }
}

impl vstd::std_specs::convert::FromSpecImpl<isize> for KeystrokeFlags {
    open spec fn obeys_from_spec() -> bool {
        true
    }

    open spec fn from_spec(lparam: isize) -> KeystrokeFlags {
        KeystrokeFlags::spec_from_raw(lparam as u32)
    }
}

/// A keyboard notification, told apart by what happened.
#[derive(Clone, Copy, Debug, PartialEq, Eq, Structural)]
pub enum KeyEvent {
    /// A key went down, or repeats while it is held.
    KeyDown {
        /// The key.
        key_code: KeyCode,
        /// The flags of the message.
        flags: KeystrokeFlags,
    },
    /// A key went up.
    KeyUp {
        /// The key.
        key_code: KeyCode,
        /// The flags of the message.
        flags: KeystrokeFlags,
    },
    /// One UTF-16 code unit of text was committed. It says nothing of the
    /// key that produced it.
    Input {
        /// The code unit.
        wchar: u16,
        /// The flags of the message.
        flags: KeystrokeFlags,
    },
}

impl KeyEvent {
    /// Whether `msg` tells of a keystroke or of committed text, going by its
    /// identifier.
    pub open spec fn spec_is_key_event(msg: WindowsProcessMessage) -> bool {
        ||| msg.umsg == WM_KEYDOWN
        ||| msg.umsg == WM_SYSKEYDOWN
        ||| msg.umsg == WM_KEYUP
        ||| msg.umsg == WM_SYSKEYUP
        ||| msg.umsg == WM_CHAR
    }

    /// The event that a message stands for, if any.
    ///
    /// A key message names its key in the first parameter and yields no
    /// event when that number stands for no known key. A text message holds
    /// the code unit in the low 16 bits of the first parameter. Both carry
    /// their flags in the low 32 bits of the second parameter.
    pub open spec fn spec_new(msg: WindowsProcessMessage) -> Option<KeyEvent> {
        let flags = KeystrokeFlags::spec_from_raw(msg.lparam as u32);
        if msg.umsg == WM_KEYDOWN || msg.umsg == WM_SYSKEYDOWN {
            match KeyCode::spec_from_virtual_key(msg.wparam as int) {
                Some(key_code) => Some(KeyEvent::KeyDown { key_code, flags }),
                None => None,
            }
        } else if msg.umsg == WM_KEYUP || msg.umsg == WM_SYSKEYUP {
            match KeyCode::spec_from_virtual_key(msg.wparam as int) {
                Some(key_code) => Some(KeyEvent::KeyUp { key_code, flags }),
                None => None,
            }
        } else if msg.umsg == WM_CHAR {
            Some(KeyEvent::Input { wchar: msg.wparam as u16, flags })
        } else {
            None
        }
    }

    /// Indicates whether the given message is a key event.
    ///
    /// Only such a message can be made into a [`KeyEvent`].
    #[verifier::when_used_as_spec(spec_is_key_event)]
    pub fn is_key_event(msg: WindowsProcessMessage) -> (known: bool)
        ensures
            known == KeyEvent::spec_is_key_event(msg),
    {
        let id = msg.identifier();
        id == WM_KEYDOWN || id == WM_SYSKEYDOWN || id == WM_KEYUP || id == WM_SYSKEYUP || id
            == WM_CHAR
    }

    /// Adapts a window message into a [`KeyEvent`].
    ///
    /// Returns `None` for a message that is no key event, and for a key
    /// message whose key is unknown.
    #[verifier::when_used_as_spec(spec_new)]
    pub fn new(msg: WindowsProcessMessage) -> (event: Option<KeyEvent>)
        ensures
            event == KeyEvent::spec_new(msg),
    {
        let id = msg.identifier();
        if id == WM_KEYDOWN || id == WM_SYSKEYDOWN {
            match KeyCode::from_virtual_key(msg.wparam()) {
                Some(key_code) => Some(
                    KeyEvent::KeyDown { key_code, flags: KeystrokeFlags::from(msg.lparam()) },
                ),
                None => None,
            }
        } else if id == WM_KEYUP || id == WM_SYSKEYUP {
            match KeyCode::from_virtual_key(msg.wparam()) {
                Some(key_code) => Some(
                    KeyEvent::KeyUp { key_code, flags: KeystrokeFlags::from(msg.lparam()) },
                ),
                None => None,
            }
        } else if id == WM_CHAR {
            Some(
                KeyEvent::Input {
                    wchar: #[verifier::truncate] (msg.wparam() as u16),
                    flags: KeystrokeFlags::from(msg.lparam()),
                },
            )
        } else {
            None
        }
    }
}

/// Only a key event message gives an event; and of the key event messages
/// only those give none that name a key which is not known.
pub proof fn lemma_events_come_of_key_events(msg: WindowsProcessMessage)
    ensures
        KeyEvent::spec_new(msg) is Some ==> KeyEvent::spec_is_key_event(msg),
        KeyEvent::spec_is_key_event(msg) && KeyEvent::spec_new(msg) is None ==> msg.umsg != WM_CHAR
            && KeyCode::spec_from_virtual_key(msg.wparam as int) is None,
{
}

} // verus!
