use skylight::input::keyboard::{
    InputBuffer, KeyCode, KeyEvent, Keyboard, KeystrokeFlags, INPUT_QUEUE_CAPACITY,
};

fn press_flags() -> KeystrokeFlags {
    KeystrokeFlags::from_raw(0x001E_0001)
}

fn repeat_flags() -> KeystrokeFlags {
    KeystrokeFlags::from_raw(0x401E_0001)
}

fn release_flags() -> KeystrokeFlags {
    KeystrokeFlags::from_raw(0xC01E_0001)
}

fn down(key_code: KeyCode) -> KeyEvent {
    KeyEvent::KeyDown { key_code, flags: press_flags() }
}

fn repeat(key_code: KeyCode) -> KeyEvent {
    KeyEvent::KeyDown { key_code, flags: repeat_flags() }
}

fn up(key_code: KeyCode) -> KeyEvent {
    KeyEvent::KeyUp { key_code, flags: release_flags() }
}

fn unit(wchar: u16) -> KeyEvent {
    KeyEvent::Input { wchar, flags: press_flags() }
}

fn enter(kbd: &mut Keyboard, text: &str) {
    for wchar in text.encode_utf16() {
        kbd.process_evt(unit(wchar));
    }
}

fn drain(kbd: &mut Keyboard) -> (usize, String) {
    let mut buffer: InputBuffer = kbd.drain_input();
    let count = buffer.num_backspaces();
    (count, buffer.chars().into_iter().collect())
}

fn pressed_keys(kbd: &Keyboard) -> Vec<KeyCode> {
    KeyCode::all().into_iter().filter(|key| kbd.is_key_pressed(*key)).collect()
}

#[test]
fn capacity_is_thirty_two() {
    assert_eq!(INPUT_QUEUE_CAPACITY, 32);
}

#[test]
fn new_keyboard_is_empty() {
    let mut kbd = Keyboard::new();
    assert!(pressed_keys(&kbd).is_empty());
    assert_eq!(kbd.pending_backspaces(), 0);
    assert_eq!(drain(&mut kbd), (0, String::new()));
    assert_eq!(drain(&mut kbd), (0, String::new()));
}

#[test]
fn default_keyboard_is_empty() {
    let mut kbd = Keyboard::default();
    assert!(pressed_keys(&kbd).is_empty());
    assert_eq!(drain(&mut kbd), (0, String::new()));
}

/// Each key follows the latest event that pressed or released it.
#[test]
fn latest_transition_decides() {
    let mut kbd = Keyboard::new();
    for evt in [
        down(KeyCode::A),
        down(KeyCode::B),
        up(KeyCode::A),
        down(KeyCode::C),
        up(KeyCode::C),
        down(KeyCode::C),
        up(KeyCode::D),
        unit(0x61),
        down(KeyCode::Shift),
        up(KeyCode::Shift),
    ] {
        kbd.process_evt(evt);
    }
    assert_eq!(pressed_keys(&kbd), vec![KeyCode::B, KeyCode::C]);
}

/// A repeated key-down changes nothing: it neither presses a key that is up
/// nor disturbs one that is down.
#[test]
fn repeat_never_changes_press_state() {
    let mut kbd = Keyboard::new();
    kbd.process_evt(repeat(KeyCode::Left));
    assert!(!kbd.is_key_pressed(KeyCode::Left));
    assert!(pressed_keys(&kbd).is_empty());

    kbd.process_evt(down(KeyCode::Left));
    kbd.process_evt(repeat(KeyCode::Left));
    kbd.process_evt(repeat(KeyCode::Right));
    assert_eq!(pressed_keys(&kbd), vec![KeyCode::Left]);

    kbd.process_evt(up(KeyCode::Left));
    kbd.process_evt(repeat(KeyCode::Left));
    assert!(pressed_keys(&kbd).is_empty());
}

/// A key-up clears the key whatever its flags say.
#[test]
fn key_up_is_unconditional() {
    let mut kbd = Keyboard::new();
    kbd.process_evt(down(KeyCode::Q));
    kbd.process_evt(KeyEvent::KeyUp { key_code: KeyCode::Q, flags: KeystrokeFlags::from_raw(0) });
    assert!(!kbd.is_key_pressed(KeyCode::Q));
}

/// Every key has a slot of its own.
#[test]
fn keys_do_not_share_slots() {
    for key in KeyCode::all() {
        let mut kbd = Keyboard::new();
        kbd.process_evt(down(key));
        assert_eq!(pressed_keys(&kbd), vec![key]);
        kbd.process_evt(up(key));
        assert!(pressed_keys(&kbd).is_empty());
    }
    let mut kbd = Keyboard::new();
    for key in KeyCode::all() {
        kbd.process_evt(down(key));
    }
    assert_eq!(pressed_keys(&kbd), KeyCode::all());
}

/// Text events do not touch the keys, and key events do not touch the text.
#[test]
fn keys_and_text_are_independent() {
    let mut kbd = Keyboard::new();
    kbd.process_evt(down(KeyCode::A));
    enter(&mut kbd, "xyz");
    kbd.process_evt(down(KeyCode::B));
    kbd.process_evt(up(KeyCode::A));
    assert_eq!(pressed_keys(&kbd), vec![KeyCode::B]);
    assert_eq!(drain(&mut kbd), (0, "xyz".to_string()));
    assert_eq!(pressed_keys(&kbd), vec![KeyCode::B]);
}

/// Printable ASCII text comes out as it went in, and is handed out once.
#[test]
fn printable_ascii_round_trip() {
    let all: String = (0x20u8..=0x7E).map(char::from).collect();
    assert_eq!(all.len(), 95);
    let mut kbd = Keyboard::new();
    for chunk in all.as_bytes().chunks(INPUT_QUEUE_CAPACITY - 1) {
        let text = std::str::from_utf8(chunk).unwrap();
        enter(&mut kbd, text);
        assert_eq!(drain(&mut kbd), (0, text.to_string()));
        assert_eq!(drain(&mut kbd), (0, String::new()));
    }
}

/// A high surrogate waits, through a drain, for its low surrogate.
#[test]
fn surrogate_pair_across_a_drain() {
    let mut kbd = Keyboard::new();
    enter(&mut kbd, "a");
    kbd.process_evt(unit(0xD83D));
    assert_eq!(drain(&mut kbd), (0, "a".to_string()));
    assert_eq!(drain(&mut kbd), (0, String::new()));
    kbd.process_evt(unit(0xDC4C));
    assert_eq!(drain(&mut kbd), (0, "\u{1F44C}".to_string()));
}

#[test]
fn surrogate_pair_extremes() {
    let mut kbd = Keyboard::new();
    for wchar in [0xD800, 0xDC00, 0xDBFF, 0xDFFF, 0xD800, 0xDFFF, 0xDBFF, 0xDC00] {
        kbd.process_evt(unit(wchar));
    }
    assert_eq!(drain(&mut kbd), (0, "\u{10000}\u{10FFFF}\u{103FF}\u{10FC00}".to_string()));
}

/// A low surrogate that nothing precedes becomes the replacement character
/// at once, and the text after it is read as usual.
#[test]
fn lone_low_surrogate() {
    let mut kbd = Keyboard::new();
    kbd.process_evt(unit(0xDC00));
    assert_eq!(drain(&mut kbd), (0, "\u{FFFD}".to_string()));
    kbd.process_evt(unit(0xDFFF));
    enter(&mut kbd, "ok\u{1D11E}!");
    assert_eq!(drain(&mut kbd), (0, "\u{FFFD}ok\u{1D11E}!".to_string()));
}

/// A pending high surrogate and a code unit that is no low surrogate give
/// one replacement character for the two; nothing is pending afterwards.
#[test]
fn broken_pair_is_replaced_once() {
    let mut kbd = Keyboard::new();
    kbd.process_evt(unit(0xD834));
    kbd.process_evt(unit(0x0061));
    assert_eq!(drain(&mut kbd), (0, "\u{FFFD}".to_string()));

    kbd.process_evt(unit(0xD834));
    kbd.process_evt(unit(0xD834));
    kbd.process_evt(unit(0x0062));
    assert_eq!(drain(&mut kbd), (0, "\u{FFFD}b".to_string()));

    kbd.process_evt(unit(0xD834));
    kbd.process_evt(unit(0x0008));
    assert_eq!(drain(&mut kbd), (0, "\u{FFFD}".to_string()));
}

/// The sequence backspace, backspace, a, b, backspace, c.
#[test]
fn backspaces_before_and_within_text() {
    let mut kbd = Keyboard::new();
    for wchar in [0x08, 0x08, 0x61, 0x62, 0x08, 0x63] {
        kbd.process_evt(unit(wchar));
    }
    assert_eq!(kbd.pending_backspaces(), 2);
    assert_eq!(drain(&mut kbd), (2, "ac".to_string()));
    assert_eq!(kbd.pending_backspaces(), 0);
    assert_eq!(drain(&mut kbd), (0, String::new()));
}

#[test]
fn backspace_counts_only_on_an_empty_queue() {
    let mut kbd = Keyboard::new();
    enter(&mut kbd, "ab");
    kbd.process_evt(unit(0x08));
    assert_eq!(kbd.pending_backspaces(), 0);
    kbd.process_evt(unit(0x08));
    assert_eq!(kbd.pending_backspaces(), 0);
    kbd.process_evt(unit(0x08));
    assert_eq!(kbd.pending_backspaces(), 1);
    kbd.process_evt(unit(0x08));
    kbd.process_evt(unit(0x08));
    assert_eq!(kbd.pending_backspaces(), 3);
    enter(&mut kbd, "z");
    assert_eq!(drain(&mut kbd), (3, "z".to_string()));
}

/// A backspace takes a whole character, also one that came as a pair.
#[test]
fn backspace_removes_a_whole_pair() {
    let mut kbd = Keyboard::new();
    enter(&mut kbd, "a\u{1D11E}");
    kbd.process_evt(unit(0x08));
    assert_eq!(drain(&mut kbd), (0, "a".to_string()));
}

/// Control codes are dropped unless they are white space.
#[test]
fn control_codes() {
    let mut kbd = Keyboard::new();
    for wchar in [
        0x00, 0x61, 0x01, 0x07, 0x09, 0x0A, 0x0B, 0x0C, 0x0D, 0x0E, 0x1B, 0x1F, 0x20, 0x7F, 0x80,
        0x84, 0x85, 0x86, 0x9F, 0xA0, 0x62,
    ] {
        kbd.process_evt(unit(wchar));
    }
    assert_eq!(kbd.pending_backspaces(), 0);
    assert_eq!(drain(&mut kbd), (0, "a\t\n\u{0B}\u{0C}\r \u{85}\u{A0}b".to_string()));
}

/// The queue keeps the newest characters, one fewer than its capacity.
#[test]
fn queue_keeps_the_newest() {
    let text = "0123456789abcdefghijklmnopqrstuvwxyz";
    for len in 0..=text.len() {
        let mut kbd = Keyboard::new();
        enter(&mut kbd, &text[..len]);
        let kept = len.min(INPUT_QUEUE_CAPACITY - 1);
        assert_eq!(drain(&mut kbd), (0, text[len - kept..len].to_string()));
    }
}

#[test]
fn queue_at_its_limit() {
    let mut kbd = Keyboard::new();
    enter(&mut kbd, "0123456789abcdefghijklmnopqrstu");
    enter(&mut kbd, "v");
    let (count, text) = drain(&mut kbd);
    assert_eq!(count, 0);
    assert_eq!(text, "123456789abcdefghijklmnopqrstuv");
    assert_eq!(text.len(), 31);
}

/// A pair fills one place and leaves as one: the text that is kept never
/// begins or ends inside a pair.
#[test]
fn eviction_takes_whole_pairs() {
    let mut kbd = Keyboard::new();
    let text = "\u{1D11E}\u{1F309}".repeat(20);
    enter(&mut kbd, &text);
    let (_, kept) = drain(&mut kbd);
    assert_eq!(kept.chars().count(), 31);
    assert_eq!(kept, format!("\u{1F309}{}", "\u{1D11E}\u{1F309}".repeat(15)));
    assert!(kept.chars().all(|c| c == '\u{1D11E}' || c == '\u{1F309}'));
}

/// A backspace on a full queue makes room again.
#[test]
fn backspace_after_eviction() {
    let mut kbd = Keyboard::new();
    enter(&mut kbd, "0123456789abcdefghijklmnopqrstuvwxyz");
    kbd.process_evt(unit(0x08));
    enter(&mut kbd, "!");
    assert_eq!(drain(&mut kbd), (0, "56789abcdefghijklmnopqrstuvwxy!".to_string()));
}

#[test]
fn reset_clears_everything() {
    let mut kbd = Keyboard::new();
    kbd.process_evt(unit(0x08));
    kbd.process_evt(down(KeyCode::A));
    kbd.process_evt(down(KeyCode::F5));
    enter(&mut kbd, "text");
    kbd.process_evt(unit(0xD834));
    kbd.reset();

    assert!(pressed_keys(&kbd).is_empty());
    for key in KeyCode::all() {
        assert!(!kbd.is_key_pressed(key));
    }
    assert_eq!(kbd.pending_backspaces(), 0);
    assert_eq!(drain(&mut kbd), (0, String::new()));

    // Nothing is pending: a low surrogate stands alone now.
    kbd.process_evt(unit(0xDD1E));
    assert_eq!(drain(&mut kbd), (0, "\u{FFFD}".to_string()));
}

#[test]
fn reset_of_a_new_keyboard() {
    let mut kbd = Keyboard::new();
    kbd.reset();
    assert!(pressed_keys(&kbd).is_empty());
    assert_eq!(drain(&mut kbd), (0, String::new()));
    kbd.process_evt(down(KeyCode::Up));
    assert!(kbd.is_key_pressed(KeyCode::Up));
}

/// Draining leaves the pressed keys alone.
#[test]
fn drain_keeps_keys() {
    let mut kbd = Keyboard::new();
    kbd.process_evt(down(KeyCode::Space));
    enter(&mut kbd, " ");
    assert_eq!(drain(&mut kbd), (0, " ".to_string()));
    assert!(kbd.is_key_pressed(KeyCode::Space));
}

/// The text of a buffer is handed out once; the count stays.
#[test]
fn buffer_hands_text_out_once() {
    let mut kbd = Keyboard::new();
    kbd.process_evt(unit(0x08));
    enter(&mut kbd, "hi");
    let mut buffer = kbd.drain_input();
    assert_eq!(buffer.num_backspaces(), 1);
    assert_eq!(buffer.chars(), vec!['h', 'i']);
    assert_eq!(buffer.chars(), Vec::<char>::new());
    assert_eq!(buffer.num_backspaces(), 1);
}
