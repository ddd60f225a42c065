//! What follows from the keyboard's state machine: the laws that callers can
//! rely on, each proved from the definitions in the model.

use super::codes::KeyCode;
use super::event::{KeyEvent, KeystrokeFlags};
use super::model::{keep_last, resolve, KeyboardState, INPUT_QUEUE_CAPACITY};
use super::text::{
    decode_unit, is_ignored, is_high_surrogate, is_low_surrogate, pair_code_point, BACKSPACE,
    REPLACEMENT_CHARACTER,
};
use vstd::prelude::*;

verus! {

/// What `event` does to `key`: `Some(true)` where it presses the key,
/// `Some(false)` where it releases it, `None` where it leaves the key as it
/// is. A key-down event that repeats a held key does nothing to any key.
pub open spec fn transition_of(event: KeyEvent, key: KeyCode) -> Option<bool> {
    match event {
        KeyEvent::KeyDown { key_code, flags } => {
            if key_code == key && !flags.was_previous_state_down {
                Some(true)
            } else {
                None
            }
        },
        KeyEvent::KeyUp { key_code, .. } => {
            if key_code == key {
                Some(false)
            } else {
                None
            }
        },
        KeyEvent::Input { .. } => None,
    }
}

/// Whether `unit` by itself stands for a character that joins the queue: it
/// is no surrogate, and its character is neither a backspace nor another
/// control code that is passed over.
pub open spec fn is_text_unit(unit: u16) -> bool {
    decode_unit(unit) matches Some(c) && c != BACKSPACE && !is_ignored(c)
}

/// Whether `unit` is a printable ASCII character, space included.
pub open spec fn is_printable_ascii(unit: u16) -> bool {
    0x20 <= unit <= 0x7E
}

/// Whether `event` carries a code unit that joins the queue by itself.
pub open spec fn is_text_event(event: KeyEvent) -> bool {
    event matches KeyEvent::Input { wchar, .. } && is_text_unit(wchar)
}

/// The characters that a sequence of text events carries, in order.
pub open spec fn text_of(events: Seq<KeyEvent>) -> Seq<char> {
    Seq::new(events.len(), |i: int| events[i]->wchar as char)
}

/// Running a sequence with one more event at its end is running the
/// sequence, then taking the step of that event.
pub proof fn lemma_run_push(state: KeyboardState, events: Seq<KeyEvent>, event: KeyEvent)
    ensures
        state.run(events.push(event)) == state.run(events).step(event),
{
    assert(events.push(event).drop_last() =~= events);
}

/// A key-down event that only repeats a key already held changes nothing:
/// not the pressed keys, and nothing else.
pub proof fn lemma_repeat_changes_nothing(
    state: KeyboardState,
    key_code: KeyCode,
    flags: KeystrokeFlags,
)
    requires
        flags.was_previous_state_down,
    ensures
        state.step(KeyEvent::KeyDown { key_code, flags }) == state,
{
}

/// An event that is no transition of `key` leaves the key as it is.
pub proof fn lemma_step_without_transition(state: KeyboardState, event: KeyEvent, key: KeyCode)
    requires
        transition_of(event, key) is None,
    ensures
        state.step(event).is_pressed(key) == state.is_pressed(key),
{
}

/// After any sequence of events in which nothing presses or releases `key`,
/// the key is as it was.
pub proof fn lemma_untouched_key(state: KeyboardState, events: Seq<KeyEvent>, key: KeyCode)
    requires
        forall|j: int| 0 <= j < events.len() ==> transition_of(#[trigger] events[j], key) is None,
    ensures
        state.run(events).is_pressed(key) == state.is_pressed(key),
    decreases events.len(),
{
    if events.len() > 0 {
        lemma_untouched_key(state, events.drop_last(), key);
        lemma_step_without_transition(state.run(events.drop_last()), events.last(), key);
    }
}

/// After any sequence of events, a key is down exactly if the most recent
/// event that pressed or released it pressed it. Here `latest` is the place
/// of that event: nothing after it touches the key.
pub proof fn lemma_latest_transition_decides(
    state: KeyboardState,
    events: Seq<KeyEvent>,
    key: KeyCode,
    latest: int,
)
    requires
        0 <= latest < events.len(),
        transition_of(events[latest], key) is Some,
        forall|j: int|
            latest < j < events.len() ==> transition_of(#[trigger] events[j], key) is None,
    ensures
        state.run(events).is_pressed(key) == transition_of(events[latest], key)->0,
    decreases events.len(),
{
    if latest < events.len() - 1 {
        lemma_latest_transition_decides(state, events.drop_last(), key, latest);
        lemma_step_without_transition(state.run(events.drop_last()), events.last(), key);
    }
}

/// No event takes a keyboard out of its valid states: the queue stays
/// below its capacity, and what is pending is a high surrogate.
pub proof fn lemma_step_keeps_wf(state: KeyboardState, event: KeyEvent)
    requires
        state.wf(),
    ensures
        state.step(event).wf(),
{
}

/// No sequence of events takes a keyboard out of its valid states.
pub proof fn lemma_run_keeps_wf(state: KeyboardState, events: Seq<KeyEvent>)
    requires
        state.wf(),
    ensures
        state.run(events).wf(),
    decreases events.len(),
{
    if events.len() > 0 {
        lemma_run_keeps_wf(state, events.drop_last());
        lemma_step_keeps_wf(state.run(events.drop_last()), events.last());
    }
}

/// A keyboard that has seen nothing has no key down, no text, no backspace
/// owed and nothing pending, and draining it changes nothing.
pub proof fn lemma_initial_is_empty()
    ensures
        forall|key: KeyCode| !KeyboardState::initial().is_pressed(key),
        KeyboardState::initial().queue.len() == 0,
        KeyboardState::initial().backspaces == 0,
        KeyboardState::initial().pending is None,
        KeyboardState::initial().wf(),
        KeyboardState::initial().drained() == KeyboardState::initial(),
{
}

/// Right after a drain there is nothing to drain: no text and no backspace.
pub proof fn lemma_drained_is_empty(state: KeyboardState)
    ensures
        state.drained().queue.len() == 0,
        state.drained().backspaces == 0,
        state.drained().drained() == state.drained(),
        state.drained().pressed == state.pressed,
        state.drained().pending == state.pending,
{
}

/// Every printable ASCII code unit joins the queue by itself.
pub proof fn lemma_printable_ascii_is_text(unit: u16)
    requires
        is_printable_ascii(unit),
    ensures
        is_text_unit(unit),
        decode_unit(unit) == Some(unit as char),
{
}

/// One text event appends its character and keeps the newest characters,
/// one fewer than the capacity.
pub proof fn lemma_text_step(state: KeyboardState, event: KeyEvent)
    requires
        state.pending is None,
        is_text_event(event),
    ensures
        state.step(event) == (KeyboardState {
            queue: keep_last(
                state.queue.push(event->wchar as char),
                (INPUT_QUEUE_CAPACITY - 1) as nat,
            ),
            ..state
        }),
{
}

/// A sequence of text events, with nothing pending before it, leaves in the
/// queue the newest characters of what was queued followed by the text of
/// the events: all of it where that stays below the capacity, else the last
/// `INPUT_QUEUE_CAPACITY - 1` characters. Nothing else changes.
///
/// On a keyboard with an empty queue, text shorter than the capacity is
/// therefore drained exactly as it was entered.
pub proof fn lemma_text_run(state: KeyboardState, events: Seq<KeyEvent>)
    requires
        state.wf(),
        state.pending is None,
        forall|i: int| 0 <= i < events.len() ==> is_text_event(#[trigger] events[i]),
    ensures
        state.run(events) == (KeyboardState {
            queue: keep_last(
                state.queue + text_of(events),
                (INPUT_QUEUE_CAPACITY - 1) as nat,
            ),
            ..state
        }),
        state.queue.len() + events.len() < INPUT_QUEUE_CAPACITY ==> state.run(events).queue
            == state.queue + text_of(events),
        state.queue.len() + events.len() >= INPUT_QUEUE_CAPACITY ==> state.run(events).queue
            == (state.queue + text_of(events)).subrange(
            state.queue.len() + events.len() - (INPUT_QUEUE_CAPACITY - 1),
            (state.queue.len() + events.len()) as int,
        ),
    decreases events.len(),
{
    let limit = (INPUT_QUEUE_CAPACITY - 1) as nat;
    if events.len() == 0 {
        assert(state.queue + text_of(events) =~= state.queue);
    } else {
        let front = events.drop_last();
        let last = events.last();
        lemma_text_run(state, front);
        lemma_text_step(state.run(front), last);
        let before = state.queue + text_of(front);
        let c = last->wchar as char;
        assert(state.queue + text_of(events) =~= before.push(c));
        assert(keep_last(keep_last(before, limit).push(c), limit) =~= keep_last(
            before.push(c),
            limit,
        ));
    }
}

/// Printable ASCII text that is entered while the queue is empty, and is
/// shorter than the capacity, is drained exactly as it was entered, in
/// order; and a second drain right after the first finds nothing.
pub proof fn lemma_printable_ascii_drains_unchanged(state: KeyboardState, events: Seq<KeyEvent>)
    requires
        state.wf(),
        state.pending is None,
        state.queue.len() == 0,
        events.len() < INPUT_QUEUE_CAPACITY,
        forall|i: int|
            0 <= i < events.len() ==> (#[trigger] events[i] matches KeyEvent::Input { wchar, .. }
                && is_printable_ascii(wchar)),
    ensures
        state.run(events).queue == text_of(events),
        state.run(events).backspaces == state.backspaces,
        state.run(events).drained().queue.len() == 0,
        state.run(events).drained().backspaces == 0,
{
    assert forall|i: int| 0 <= i < events.len() implies is_text_event(#[trigger] events[i]) by {
        lemma_printable_ascii_is_text(events[i]->wchar);
    }
    lemma_text_run(state, events);
    assert(state.queue + text_of(events) =~= text_of(events));
}

/// Whether `c` joins the queue: it is neither a backspace nor another
/// control code that is passed over.
pub open spec fn is_plain(c: char) -> bool {
    c != BACKSPACE && !is_ignored(c)
}

/// The code units that a sequence of text events carries, in order.
pub open spec fn units_of(events: Seq<KeyEvent>) -> Seq<u16> {
    Seq::new(events.len(), |i: int| events[i]->wchar)
}

/// The code unit that is pending after `units` have arrived in order, where
/// `pending` was pending before them.
pub open spec fn pending_after(pending: Option<u16>, units: Seq<u16>) -> Option<u16>
    decreases units.len(),
{
    if units.len() == 0 {
        pending
    } else {
        resolve(pending_after(pending, units.drop_last()), units.last()).0
    }
}

/// The characters that come out as `units` arrive in order, where `pending`
/// was pending before them: one for each code unit that stands by itself,
/// one for each pair.
pub open spec fn resolved_text(pending: Option<u16>, units: Seq<u16>) -> Seq<char>
    decreases units.len(),
{
    if units.len() == 0 {
        Seq::empty()
    } else {
        let before = resolved_text(pending, units.drop_last());
        match resolve(pending_after(pending, units.drop_last()), units.last()).1 {
            Some(c) => before.push(c),
            None => before,
        }
    }
}

/// Whatever code units arrive, the queue holds whole characters: after a
/// sequence of text events that resolve to no backspace and no ignored
/// control code, it is the newest part of what was queued followed by the
/// characters that the code units resolve to, at most
/// `INPUT_QUEUE_CAPACITY - 1` of them. A surrogate pair is one of these
/// characters, so that it is kept whole or dropped whole.
pub proof fn lemma_input_run(state: KeyboardState, events: Seq<KeyEvent>)
    requires
        state.wf(),
        forall|i: int| 0 <= i < events.len() ==> #[trigger] events[i] is Input,
        forall|j: int|
            0 <= j < resolved_text(state.pending, units_of(events)).len() ==> is_plain(
                #[trigger] resolved_text(state.pending, units_of(events))[j],
            ),
    ensures
        state.run(events) == (KeyboardState {
            queue: keep_last(
                state.queue + resolved_text(state.pending, units_of(events)),
                (INPUT_QUEUE_CAPACITY - 1) as nat,
            ),
            pending: pending_after(state.pending, units_of(events)),
            ..state
        }),
    decreases events.len(),
{
    let limit = (INPUT_QUEUE_CAPACITY - 1) as nat;
    let units = units_of(events);
    if events.len() == 0 {
        assert(state.queue + resolved_text(state.pending, units) =~= state.queue);
    } else {
        let front = events.drop_last();
        let last = events.last();
        assert(units_of(front) =~= units.drop_last());
        assert(units.last() == last->wchar);
        let text_before = resolved_text(state.pending, units.drop_last());
        let text = resolved_text(state.pending, units);
        assert forall|j: int| 0 <= j < text_before.len() implies is_plain(
            #[trigger] text_before[j],
        ) by {
            assert(text[j] == text_before[j]);
        }
        lemma_input_run(state, front);
        let before = state.queue + text_before;
        match resolve(pending_after(state.pending, units.drop_last()), units.last()).1 {
            Some(c) => {
                assert(text[text.len() - 1] == c);
                assert(state.queue + text =~= before.push(c));
                assert(keep_last(keep_last(before, limit).push(c), limit) =~= keep_last(
                    before.push(c),
                    limit,
                ));
            },
            None => {
                assert(keep_last(keep_last(before, limit), limit) =~= keep_last(before, limit));
            },
        }
    }
}

/// A high surrogate, with nothing pending before it, only becomes pending:
/// no text comes of it until the next code unit arrives, so that a drain in
/// between hands out what was queued before and nothing more.
pub proof fn lemma_high_surrogate_waits(state: KeyboardState, high: u16, flags: KeystrokeFlags)
    requires
        state.pending is None,
        is_high_surrogate(high),
    ensures
        state.step(KeyEvent::Input { wchar: high, flags }) == (KeyboardState {
            pending: Some(high),
            ..state
        }),
{
}

/// A low surrogate that arrives while its high surrogate is pending joins
/// the queue together with it, as the one character that the pair encodes.
/// The pair takes one place in the queue and leaves it as one.
pub proof fn lemma_surrogate_pair_is_one_character(
    state: KeyboardState,
    high: u16,
    low: u16,
    flags: KeystrokeFlags,
)
    requires
        state.pending == Some(high),
        is_high_surrogate(high),
        is_low_surrogate(low),
    ensures
        state.step(KeyEvent::Input { wchar: low, flags }) == (KeyboardState {
            queue: keep_last(
                state.queue.push(pair_code_point(high, low) as char),
                (INPUT_QUEUE_CAPACITY - 1) as nat,
            ),
            pending: None,
            ..state
        }),
        0x10000 <= pair_code_point(high, low) <= 0x10FFFF,
        (pair_code_point(high, low) as char) as int == pair_code_point(high, low),
{
}

/// A surrogate pair whose halves arrive on either side of a drain: the drain
/// in between hands out what was queued before and nothing of the pair, and
/// the drain after the low surrogate hands out the one character of the
/// pair, with no backspace.
pub proof fn lemma_pair_across_drain(
    state: KeyboardState,
    high: u16,
    low: u16,
    high_flags: KeystrokeFlags,
    low_flags: KeystrokeFlags,
)
    requires
        state.wf(),
        state.pending is None,
        is_high_surrogate(high),
        is_low_surrogate(low),
    ensures
        ({
            let waiting = state.step(KeyEvent::Input { wchar: high, flags: high_flags });
            let after = waiting.drained().step(KeyEvent::Input { wchar: low, flags: low_flags });
            &&& waiting.queue == state.queue
            &&& waiting.backspaces == state.backspaces
            &&& after.queue == seq![pair_code_point(high, low) as char]
            &&& after.backspaces == 0
            &&& after.pending is None
        }),
{
    let waiting = state.step(KeyEvent::Input { wchar: high, flags: high_flags });
    lemma_high_surrogate_waits(state, high, high_flags);
    lemma_surrogate_pair_is_one_character(waiting.drained(), high, low, low_flags);
    let c = pair_code_point(high, low) as char;
    assert(Seq::<char>::empty().push(c) =~= seq![c]);
}

/// A code unit that arrives while a high surrogate is pending and is no low
/// surrogate gives the replacement character, once, for the two of them.
pub proof fn lemma_broken_pair_is_replaced(
    state: KeyboardState,
    high: u16,
    unit: u16,
    flags: KeystrokeFlags,
)
    requires
        state.pending == Some(high),
        !is_low_surrogate(unit),
    ensures
        state.step(KeyEvent::Input { wchar: unit, flags }) == (KeyboardState {
            queue: keep_last(
                state.queue.push(REPLACEMENT_CHARACTER),
                (INPUT_QUEUE_CAPACITY - 1) as nat,
            ),
            pending: None,
            ..state
        }),
{
}

/// A low surrogate with nothing pending before it joins the queue as the
/// replacement character. Nothing is pending after it, so that the text
/// that follows is read as if the surrogate had been any other character.
pub proof fn lemma_lone_low_surrogate_is_replaced(
    state: KeyboardState,
    low: u16,
    flags: KeystrokeFlags,
)
    requires
        state.pending is None,
        is_low_surrogate(low),
    ensures
        state.step(KeyEvent::Input { wchar: low, flags }) == (KeyboardState {
            queue: keep_last(
                state.queue.push(REPLACEMENT_CHARACTER),
                (INPUT_QUEUE_CAPACITY - 1) as nat,
            ),
            ..state
        }),
{
}

/// A backspace, with nothing pending before it, takes the newest character
/// off the queue and leaves the count alone; where the queue is empty it
/// adds one to the count instead.
pub proof fn lemma_backspace(state: KeyboardState, flags: KeystrokeFlags)
    requires
        state.wf(),
        state.pending is None,
    ensures
        state.queue.len() > 0 ==> state.step(KeyEvent::Input { wchar: 0x08, flags }) == (
        KeyboardState { queue: state.queue.drop_last(), ..state }),
        state.queue.len() == 0 ==> state.step(KeyEvent::Input { wchar: 0x08, flags }) == (
        KeyboardState { backspaces: state.backspaces + 1, ..state }),
{
    assert(decode_unit(0x08u16) == Some(BACKSPACE));
}

} // verus!
