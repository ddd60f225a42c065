//! Keyboard state and text input tracking.

use super::codes::KeyCode;
use super::event::KeyEvent;
use super::model::{keep_last, KeyboardState, INPUT_QUEUE_CAPACITY};
use super::pressed::{pressed_bits, PressedKeys, PRESSED_SLOTS};
use super::text::{
    decode_pair, decode_unit, is_high_surrogate, is_ignored, BACKSPACE, REPLACEMENT_CHARACTER,
};
use std::collections::VecDeque;
use vstd::prelude::*;

verus! {

/// The central object which tracks and manages keyboard state and text input.
///
/// It is fed the key and text events of one window, in the order in which
/// they arrive, and answers two questions at any time: which keys are down,
/// and what text has been entered since the last time it was asked.
///
/// Text arrives as UTF-16 code units. Surrogate pairs are joined before they
/// reach the queue, and whatever cannot be decoded becomes U+FFFD, so that
/// the text handed out is always valid.
pub struct Keyboard {
    /// Which keys are down, by virtual-key number.
    pressed: PressedKeys,
    /// Committed text that has not been drained yet.
    input_queue: VecDeque<char>,
    /// Backspaces owed to text that was drained before.
    n_backspaces: usize,
    /// A high surrogate that waits for its low surrogate.
    pending_surrogate: Option<u16>,
}

impl View for Keyboard {
    type V = KeyboardState;

    closed spec fn view(&self) -> KeyboardState {
        KeyboardState {
            pressed: Set::new(
                |key: KeyCode| pressed_bits(self.pressed)[key.spec_value() as int],
            ),
            queue: self.input_queue@,
            backspaces: self.n_backspaces as nat,
            pending: self.pending_surrogate,
        }
    }
}

impl Keyboard {
    #[verifier::type_invariant]
    spec fn inv(self) -> bool {
        &&& pressed_bits(self.pressed).len() == PRESSED_SLOTS
        &&& self@.wf()
    }

    /// Constructs a keyboard with no key down and no text entered.
    pub fn new() -> (keyboard: Keyboard)
        ensures
            keyboard@ == KeyboardState::initial(),
    {
        let keyboard = Keyboard {
            pressed: PressedKeys::cleared(),
            input_queue: VecDeque::with_capacity(INPUT_QUEUE_CAPACITY),
            n_backspaces: 0,
            pending_surrogate: None,
        };
        assert(keyboard@.pressed =~= Set::empty());
        keyboard
    }

    /// Returns `true` if the given key is currently pressed, otherwise `false`.
    pub fn is_key_pressed(&self, key: KeyCode) -> (pressed: bool)
        ensures
            pressed == self@.is_pressed(key),
    {
        self.bit_for_key(key)
    }

    /// The number of backspaces that are owed to text drained before, as
    /// the next call of [`drain_input`] will report it.
    ///
    /// [`drain_input`]: Self::drain_input
    pub fn pending_backspaces(&self) -> (count: usize)
        ensures
            count == self@.backspaces,
    {
        self.n_backspaces
    }

    /// Drains all accumulated input in the input queue and clears any pending
    /// backspace events.
    ///
    /// The count that comes back is to be applied to text drained before,
    /// ahead of the characters that come with it: a backspace that found
    /// text in the queue has taken it away already.
    pub fn drain_input(&mut self) -> (buffer: InputBuffer)
        ensures
            buffer.num_backspaces() == old(self)@.backspaces,
            buffer.text() == old(self)@.queue,
            buffer.text().len() < INPUT_QUEUE_CAPACITY,
            final(self)@ == old(self)@.drained(),
            final(self)@.wf(),
    {
        proof {
            use_type_invariant(&*self);
        }
        let n_backspaces = self.n_backspaces;
        self.n_backspaces = 0;

        let mut queue = VecDeque::new();
        std::mem::swap(&mut queue, &mut self.input_queue);
        let ghost queued = queue@;
        let mut chars: Vec<char> = Vec::new();
        while queue.len() > 0
            invariant
                chars@ + queue@ =~= queued,
            decreases queue@.len(),
        {
            let c = queue.pop_front().unwrap();
            chars.push(c);
        }
        assert(queue@ =~= Seq::empty());
        self.input_queue = queue;
        InputBuffer { chars, n_backspaces }
    }

    /// Reset all keyboard state: no key is down, no text is queued, no
    /// surrogate is pending and no backspace is owed.
    pub fn reset(&mut self)
        ensures
            final(self)@ == KeyboardState::initial(),
    {
        proof {
            use_type_invariant(&*self);
        }
        let mut queue = VecDeque::new();
        std::mem::swap(&mut queue, &mut self.input_queue);
        queue.clear();
        self.input_queue = queue;
        self.pending_surrogate = None;
        self.n_backspaces = 0;
        self.pressed = PressedKeys::cleared();
        assert(self@.pressed =~= Set::empty());
    }

    fn bit_for_key(&self, key: KeyCode) -> (bit: bool)
        ensures
            bit == self@.pressed.contains(key),
    {
        proof {
            use_type_invariant(self);
        }
        self.pressed.get(key.value() as usize).unwrap()
    }

    fn mut_bit_for_key(&mut self, key: KeyCode, value: bool)
        ensures
            final(self)@ == (KeyboardState {
                pressed: if value {
                    old(self)@.pressed.insert(key)
                } else {
                    old(self)@.pressed.remove(key)
                },
                ..old(self)@
            }),
    {
        proof {
            use_type_invariant(&*self);
        }
        self.pressed.set(key.value() as usize, value);
        proof {
            assert forall|other: KeyCode|
                self@.pressed.contains(other) == (if other == key {
                    value
                } else {
                    old(self)@.pressed.contains(other)
                }) by {
                if other.spec_value() == key.spec_value() {
                    KeyCode::lemma_value_injective(other, key);
                }
            }
            if value {
                assert(self@.pressed =~= old(self)@.pressed.insert(key));
            } else {
                assert(self@.pressed =~= old(self)@.pressed.remove(key));
            }
        }
    }

    /// Process an event and update the state.
    ///
    /// The event shows in the next call of [`is_key_pressed`] or in the text
    /// that the next call of [`drain_input`] hands out.
    ///
    /// The count of owed backspaces must have room for one more where the
    /// event adds to it.
    ///
    /// [`is_key_pressed`]: Self::is_key_pressed
    /// [`drain_input`]: Self::drain_input
    pub fn process_evt(&mut self, evt: KeyEvent)
        requires
            old(self)@.step(evt).backspaces <= usize::MAX,
        ensures
            final(self)@ == old(self)@.step(evt),
            final(self)@.wf(),
    {
        proof {
            use_type_invariant(&*self);
        }
        match evt {
            KeyEvent::KeyDown { key_code, flags } => {
                if !flags.was_previous_state_down {
                    self.mut_bit_for_key(key_code, true);
                }
            },
            KeyEvent::KeyUp { key_code, .. } => {
                self.mut_bit_for_key(key_code, false);
            },
            KeyEvent::Input { wchar, .. } => {
                let pending = self.pending_surrogate;
                self.pending_surrogate = None;
                match pending {
                    Some(high) => {
                        let low = wchar;
                        // Combine the surrogates. What does not combine cannot be
                        // recovered, so the replacement character stands for it.
                        let c = match decode_pair(high, low) {
                            Some(c) => c,
                            None => REPLACEMENT_CHARACTER,
                        };
                        self.process_char_input(c);
                    },
                    None => {
                        if is_high_surrogate(wchar) {
                            // A high surrogate waits for the low surrogate
                            // that follows.
                            self.pending_surrogate = Some(wchar);
                        } else {
                            let c = match decode_unit(wchar) {
                                Some(c) => c,
                                None => REPLACEMENT_CHARACTER,
                            };
                            self.process_char_input(c);
                        }
                    },
                }
            },
        }
    }

    /// Handles one character of text: appends it to the input queue, or
    /// applies it where it is a backspace or another control code.
    fn process_char_input(&mut self, c: char)
        requires
            old(self)@.apply_char(c).backspaces <= usize::MAX,
        ensures
            final(self)@ == old(self)@.apply_char(c),
    {
        proof {
            use_type_invariant(&*self);
        }
        let mut queue = VecDeque::new();
        std::mem::swap(&mut queue, &mut self.input_queue);
        if c == BACKSPACE {
            if queue.pop_back().is_none() {
                self.n_backspaces += 1;
            }
        } else if is_ignored(c) {
            // Control codes that are no white space are dropped.
        } else {
            queue.push_back(c);
        }

        // Trim the queue so that it cannot grow without bound.
        let ghost untrimmed = queue@;
        while queue.len() >= INPUT_QUEUE_CAPACITY
            invariant
                queue@.len() <= untrimmed.len(),
                queue@.len() == untrimmed.len() || queue@.len() >= INPUT_QUEUE_CAPACITY - 1,
                queue@ =~= untrimmed.subrange(untrimmed.len() - queue@.len(), untrimmed.len() as int),
            decreases queue@.len(),
        {
            let _ = queue.pop_front();
        }
        assert(queue@ =~= keep_last(untrimmed, (INPUT_QUEUE_CAPACITY - 1) as nat));
        self.input_queue = queue;
    }
}

impl Default for Keyboard {
    fn default() -> (keyboard: Keyboard)
        ensures
            keyboard@ == KeyboardState::initial(),
    {
        Keyboard::new()
    }
}

/// What [`Keyboard::drain_input`] hands out: the pending text, and the number
/// of backspaces that came before it.
///
/// The backspaces are owed to text that was drained earlier. A caller that
/// keeps the text takes that many characters off its end, then appends the
/// characters of this buffer. Backspaces that arrived after text of this
/// buffer have been applied to it already.
pub struct InputBuffer {
    chars: Vec<char>,
    n_backspaces: usize,
}

impl InputBuffer {
    /// The number of backspaces that the buffer reports.
    pub closed spec fn spec_num_backspaces(&self) -> usize {
        self.n_backspaces
    }

    /// The characters that the buffer still holds, oldest first.
    pub closed spec fn text(&self) -> Seq<char> {
        self.chars@
    }

    /// The number of backspaces which preceded any text in the buffer and
    /// are to be applied to input drained before.
    #[verifier::when_used_as_spec(spec_num_backspaces)]
    pub fn num_backspaces(&self) -> (count: usize)
        ensures
            count == self.spec_num_backspaces(),
    {
        self.n_backspaces
    }

    /// Takes the pending text out of the buffer, oldest character first.
    ///
    /// The text is handed out once: what a call has taken, the next one no
    /// longer finds.
    pub fn chars(&mut self) -> (chars: Vec<char>)
        ensures
            chars@ == old(self).text(),
            final(self).text() == Seq::<char>::empty(),
            final(self).num_backspaces() == old(self).num_backspaces(),
    {
        let mut chars: Vec<char> = Vec::new();
        std::mem::swap(&mut chars, &mut self.chars);
        chars
    }
}

} // verus!
