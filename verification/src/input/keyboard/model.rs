//! The keyboard as a mathematical state machine.
//!
//! The state holds what a keyboard remembers between events; the functions on
//! it say what each event does to it. The executable [`Keyboard`] is specified
//! by them.
//!
//! [`Keyboard`]: super::Keyboard

use super::codes::KeyCode;
use super::event::KeyEvent;
use super::text::{
    decode_pair, decode_unit, is_high_surrogate, is_ignored, BACKSPACE, REPLACEMENT_CHARACTER,
};
use vstd::prelude::*;

verus! {

/// Length that the input queue never reaches: when it would, the earliest
/// characters are dropped.
pub const INPUT_QUEUE_CAPACITY: usize = 32;

/// The last `n` items of `items`, or all of them where there are no more.
pub open spec fn keep_last<T>(items: Seq<T>, n: nat) -> Seq<T> {
    if items.len() > n {
        items.subrange(items.len() - n, items.len() as int)
    } else {
        items
    }
}

/// Resolves one UTF-16 code unit, given the code unit that is pending, if
/// any. The result is the code unit that is pending afterwards, and the
/// character that comes out, if one does.
///
/// With a code unit pending, the two are decoded as a surrogate pair, and
/// what is no pair gives the replacement character once; nothing is pending
/// afterwards. With nothing pending, a high surrogate becomes pending and no
/// character comes out; any other code unit is decoded by itself, a lone low
/// surrogate giving the replacement character.
pub open spec fn resolve(pending: Option<u16>, unit: u16) -> (Option<u16>, Option<char>) {
    match pending {
        Some(high) => {
            let c = match decode_pair(high, unit) {
                Some(c) => c,
                None => REPLACEMENT_CHARACTER,
            };
            (None, Some(c))
        },
        None => {
            if is_high_surrogate(unit) {
                (Some(unit), None)
            } else {
                let c = match decode_unit(unit) {
                    Some(c) => c,
                    None => REPLACEMENT_CHARACTER,
                };
                (None, Some(c))
            }
        },
    }
}

/// What a keyboard remembers.
pub struct KeyboardState {
    /// The keys that are down.
    pub pressed: Set<KeyCode>,
    /// The committed text that has not been drained yet, oldest first.
    pub queue: Seq<char>,
    /// The backspaces that found the queue empty: they are owed to text that
    /// was drained before.
    pub backspaces: nat,
    /// A high surrogate that waits for its low surrogate.
    pub pending: Option<u16>,
}

impl KeyboardState {
    /// The state of a keyboard that has seen nothing.
    pub open spec fn initial() -> KeyboardState {
        KeyboardState {
            pressed: Set::empty(),
            queue: Seq::empty(),
            backspaces: 0,
            pending: None,
        }
    }

    /// What holds of every state that a keyboard can be in: the queue stays
    /// below its capacity, and a pending code unit is a high surrogate.
    pub open spec fn wf(self) -> bool {
        &&& self.queue.len() < INPUT_QUEUE_CAPACITY
        &&& self.pending matches Some(unit) ==> is_high_surrogate(unit)
    }

    /// Whether `key` is down.
    pub open spec fn is_pressed(self, key: KeyCode) -> bool {
        self.pressed.contains(key)
    }

    /// The state with the queue cut back to its most recent characters, one
    /// fewer than the capacity.
    pub open spec fn trimmed(self) -> KeyboardState {
        KeyboardState {
            queue: keep_last(self.queue, (INPUT_QUEUE_CAPACITY - 1) as nat),
            ..self
        }
    }

    /// The state after one character of text has arrived.
    ///
    /// A backspace takes the newest character off the queue; where the queue
    /// is empty it is counted instead. Any other control code that is no
    /// white space is passed over. Every other character joins the queue at
    /// its end. Then the queue is trimmed.
    pub open spec fn apply_char(self, c: char) -> KeyboardState {
        if c == BACKSPACE {
            if self.queue.len() > 0 {
                KeyboardState { queue: self.queue.drop_last(), ..self }.trimmed()
            } else {
                KeyboardState { backspaces: self.backspaces + 1, ..self }.trimmed()
            }
        } else if is_ignored(c) {
            self.trimmed()
        } else {
            KeyboardState { queue: self.queue.push(c), ..self }.trimmed()
        }
    }

    /// The state after one UTF-16 code unit of text has arrived: what is
    /// pending changes as [`resolve`] says, and the character that comes out,
    /// if any, goes through [`KeyboardState::apply_char`].
    pub open spec fn input(self, unit: u16) -> KeyboardState {
        let (pending, resolved) = resolve(self.pending, unit);
        let waiting = KeyboardState { pending, ..self };
        match resolved {
            Some(c) => waiting.apply_char(c),
            None => waiting,
        }
    }

    /// The state after one event.
    ///
    /// A key that goes down is pressed, unless the event only repeats a key
    /// that was down already: that one changes nothing. A key that goes up
    /// is no longer pressed. Text goes through [`KeyboardState::input`].
    pub open spec fn step(self, event: KeyEvent) -> KeyboardState {
        match event {
            KeyEvent::KeyDown { key_code, flags } => {
                if flags.was_previous_state_down {
                    self
                } else {
                    KeyboardState { pressed: self.pressed.insert(key_code), ..self }
                }
            },
            KeyEvent::KeyUp { key_code, .. } => {
                KeyboardState { pressed: self.pressed.remove(key_code), ..self }
            },
            KeyEvent::Input { wchar, .. } => self.input(wchar),
        }
    }

    /// The state after a sequence of events, first to last.
    pub open spec fn run(self, events: Seq<KeyEvent>) -> KeyboardState
        decreases events.len(),
    {
        if events.len() == 0 {
            self
        } else {
            self.run(events.drop_last()).step(events.last())
        }
    }

    /// The state after the text and the backspace count have been handed
    /// out. Pressed keys and a pending surrogate stay.
    pub open spec fn drained(self) -> KeyboardState {
        KeyboardState { queue: Seq::empty(), backspaces: 0, ..self }
    }
}

} // verus!
