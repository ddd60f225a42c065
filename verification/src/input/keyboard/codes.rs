//! Portable identifiers for the keys of a keyboard.

use vstd::prelude::*;

verus! {

/// A key of the keyboard, named independently of the platform's numbering.
///
/// The set is closed: a virtual-key number that stands for none of these
/// keys has no `KeyCode`.
#[derive(Clone, Copy, Debug, PartialEq, Eq, Structural, Hash)]
pub enum KeyCode {
    /// Backspace.
    Backspace,
    /// Tab.
    Tab,
    /// Clear (the centre key of the numeric pad without Num Lock).
    Clear,
    /// Enter.
    Enter,
    /// Shift, either side.
    Shift,
    /// Ctrl, either side.
    Control,
    /// Alt, either side.
    Alt,
    /// Pause.
    Pause,
    /// Caps Lock.
    CapsLock,
    /// Esc.
    Escape,
    /// Space bar.
    Space,
    /// Page Up.
    PageUp,
    /// Page Down.
    PageDown,
    /// End.
    End,
    /// Home.
    Home,
    /// Left arrow.
    Left,
    /// Up arrow.
    Up,
    /// Right arrow.
    Right,
    /// Down arrow.
    Down,
    /// Select.
    Select,
    /// Print.
    Print,
    /// Execute.
    Execute,
    /// Print Screen.
    PrintScreen,
    /// Insert.
    Insert,
    /// Delete.
    Delete,
    /// Help.
    Help,
    /// `0` on the main block.
    Digit0,
    /// `1` on the main block.
    Digit1,
    /// `2` on the main block.
    Digit2,
    /// `3` on the main block.
    Digit3,
    /// `4` on the main block.
    Digit4,
    /// `5` on the main block.
    Digit5,
    /// `6` on the main block.
    Digit6,
    /// `7` on the main block.
    Digit7,
    /// `8` on the main block.
    Digit8,
    /// `9` on the main block.
    Digit9,
    /// `A`.
    A,
    /// `B`.
    B,
    /// `C`.
    C,
    /// `D`.
    D,
    /// `E`.
    E,
    /// `F`.
    F,
    /// `G`.
    G,
    /// `H`.
    H,
    /// `I`.
    I,
    /// `J`.
    J,
    /// `K`.
    K,
    /// `L`.
    L,
    /// `M`.
    M,
    /// `N`.
    N,
    /// `O`.
    O,
    /// `P`.
    P,
    /// `Q`.
    Q,
    /// `R`.
    R,
    /// `S`.
    S,
    /// `T`.
    T,
    /// `U`.
    U,
    /// `V`.
    V,
    /// `W`.
    W,
    /// `X`.
    X,
    /// `Y`.
    Y,
    /// `Z`.
    Z,
    /// Left Windows key.
    LeftWindows,
    /// Right Windows key.
    RightWindows,
    /// Applications (context menu) key.
    Apps,
    /// Sleep.
    Sleep,
    /// `0` on the numeric pad.
    Numpad0,
    /// `1` on the numeric pad.
    Numpad1,
    /// `2` on the numeric pad.
    Numpad2,
    /// `3` on the numeric pad.
    Numpad3,
    /// `4` on the numeric pad.
    Numpad4,
    /// `5` on the numeric pad.
    Numpad5,
    /// `6` on the numeric pad.
    Numpad6,
    /// `7` on the numeric pad.
    Numpad7,
    /// `8` on the numeric pad.
    Numpad8,
    /// `9` on the numeric pad.
    Numpad9,
    /// `*` on the numeric pad.
    NumpadMultiply,
    /// `+` on the numeric pad.
    NumpadAdd,
    /// Separator on the numeric pad.
    NumpadSeparator,
    /// `-` on the numeric pad.
    NumpadSubtract,
    /// Decimal point on the numeric pad.
    NumpadDecimal,
    /// `/` on the numeric pad.
    NumpadDivide,
    /// F1.
    F1,
    /// F2.
    F2,
    /// F3.
    F3,
    /// F4.
    F4,
    /// F5.
    F5,
    /// F6.
    F6,
    /// F7.
    F7,
    /// F8.
    F8,
    /// F9.
    F9,
    /// F10.
    F10,
    /// F11.
    F11,
    /// F12.
    F12,
    /// F13.
    F13,
    /// F14.
    F14,
    /// F15.
    F15,
    /// F16.
    F16,
    /// F17.
    F17,
    /// F18.
    F18,
    /// F19.
    F19,
    /// F20.
    F20,
    /// F21.
    F21,
    /// F22.
    F22,
    /// F23.
    F23,
    /// F24.
    F24,
    /// Num Lock.
    NumLock,
    /// Scroll Lock.
    ScrollLock,
    /// Left Shift.
    LeftShift,
    /// Right Shift.
    RightShift,
    /// Left Ctrl.
    LeftControl,
    /// Right Ctrl.
    RightControl,
    /// Left Alt.
    LeftAlt,
    /// Right Alt.
    RightAlt,
    /// Browser Back.
    BrowserBack,
    /// Browser Forward.
    BrowserForward,
    /// Browser Refresh.
    BrowserRefresh,
    /// Browser Stop.
    BrowserStop,
    /// Browser Search.
    BrowserSearch,
    /// Browser Favorites.
    BrowserFavorites,
    /// Browser Start and Home.
    BrowserHome,
    /// Volume Mute.
    VolumeMute,
    /// Volume Down.
    VolumeDown,
    /// Volume Up.
    VolumeUp,
    /// Next Track.
    MediaNextTrack,
    /// Previous Track.
    MediaPreviousTrack,
    /// Stop Media.
    MediaStop,
    /// Play or Pause Media.
    MediaPlayPause,
    /// Start Mail.
    LaunchMail,
    /// Select Media.
    LaunchMediaSelect,
    /// Start Application 1.
    LaunchApp1,
    /// Start Application 2.
    LaunchApp2,
    /// `;:` on a US layout.
    Semicolon,
    /// `=+` on any layout.
    Plus,
    /// `,<` on any layout.
    Comma,
    /// `-_` on any layout.
    Minus,
    /// `.>` on any layout.
    Period,
    /// `/?` on a US layout.
    Slash,
    /// `` `~ `` on a US layout.
    Backquote,
    /// `[{` on a US layout.
    LeftBracket,
    /// `\\|` on a US layout.
    Backslash,
    /// `]}` on a US layout.
    RightBracket,
    /// `'"` on a US layout.
    Quote,
    /// A key whose meaning varies with the keyboard.
    Oem8,
    /// `<>` or `\\|` on a 102-key keyboard.
    Oem102,
}

impl KeyCode {
    /// The platform's virtual-key number of this key.
    pub open spec fn spec_value(self) -> u8 {
        match self {
            KeyCode::Backspace => 0x08,
            KeyCode::Tab => 0x09,
            KeyCode::Clear => 0x0C,
            KeyCode::Enter => 0x0D,
            KeyCode::Shift => 0x10,
            KeyCode::Control => 0x11,
            KeyCode::Alt => 0x12,
            KeyCode::Pause => 0x13,
            KeyCode::CapsLock => 0x14,
            KeyCode::Escape => 0x1B,
            KeyCode::Space => 0x20,
            KeyCode::PageUp => 0x21,
            KeyCode::PageDown => 0x22,
            KeyCode::End => 0x23,
            KeyCode::Home => 0x24,
            KeyCode::Left => 0x25,
            KeyCode::Up => 0x26,
            KeyCode::Right => 0x27,
            KeyCode::Down => 0x28,
            KeyCode::Select => 0x29,
            KeyCode::Print => 0x2A,
            KeyCode::Execute => 0x2B,
            KeyCode::PrintScreen => 0x2C,
            KeyCode::Insert => 0x2D,
            KeyCode::Delete => 0x2E,
            KeyCode::Help => 0x2F,
            KeyCode::Digit0 => 0x30,
            KeyCode::Digit1 => 0x31,
            KeyCode::Digit2 => 0x32,
            KeyCode::Digit3 => 0x33,
            KeyCode::Digit4 => 0x34,
            KeyCode::Digit5 => 0x35,
            KeyCode::Digit6 => 0x36,
            KeyCode::Digit7 => 0x37,
            KeyCode::Digit8 => 0x38,
            KeyCode::Digit9 => 0x39,
            KeyCode::A => 0x41,
            KeyCode::B => 0x42,
            KeyCode::C => 0x43,
            KeyCode::D => 0x44,
            KeyCode::E => 0x45,
            KeyCode::F => 0x46,
            KeyCode::G => 0x47,
            KeyCode::H => 0x48,
            KeyCode::I => 0x49,
            KeyCode::J => 0x4A,
            KeyCode::K => 0x4B,
            KeyCode::L => 0x4C,
            KeyCode::M => 0x4D,
            KeyCode::N => 0x4E,
            KeyCode::O => 0x4F,
            KeyCode::P => 0x50,
            KeyCode::Q => 0x51,
            KeyCode::R => 0x52,
            KeyCode::S => 0x53,
            KeyCode::T => 0x54,
            KeyCode::U => 0x55,
            KeyCode::V => 0x56,
            KeyCode::W => 0x57,
            KeyCode::X => 0x58,
            KeyCode::Y => 0x59,
            KeyCode::Z => 0x5A,
            KeyCode::LeftWindows => 0x5B,
            KeyCode::RightWindows => 0x5C,
            KeyCode::Apps => 0x5D,
            KeyCode::Sleep => 0x5F,
            KeyCode::Numpad0 => 0x60,
            KeyCode::Numpad1 => 0x61,
            KeyCode::Numpad2 => 0x62,
            KeyCode::Numpad3 => 0x63,
            KeyCode::Numpad4 => 0x64,
            KeyCode::Numpad5 => 0x65,
            KeyCode::Numpad6 => 0x66,
            KeyCode::Numpad7 => 0x67,
            KeyCode::Numpad8 => 0x68,
            KeyCode::Numpad9 => 0x69,
            KeyCode::NumpadMultiply => 0x6A,
            KeyCode::NumpadAdd => 0x6B,
            KeyCode::NumpadSeparator => 0x6C,
            KeyCode::NumpadSubtract => 0x6D,
            KeyCode::NumpadDecimal => 0x6E,
            KeyCode::NumpadDivide => 0x6F,
            KeyCode::F1 => 0x70,
            KeyCode::F2 => 0x71,
            KeyCode::F3 => 0x72,
            KeyCode::F4 => 0x73,
            KeyCode::F5 => 0x74,
            KeyCode::F6 => 0x75,
            KeyCode::F7 => 0x76,
            KeyCode::F8 => 0x77,
            KeyCode::F9 => 0x78,
            KeyCode::F10 => 0x79,
            KeyCode::F11 => 0x7A,
            KeyCode::F12 => 0x7B,
            KeyCode::F13 => 0x7C,
            KeyCode::F14 => 0x7D,
            KeyCode::F15 => 0x7E,
            KeyCode::F16 => 0x7F,
            KeyCode::F17 => 0x80,
            KeyCode::F18 => 0x81,
            KeyCode::F19 => 0x82,
            KeyCode::F20 => 0x83,
            KeyCode::F21 => 0x84,
            KeyCode::F22 => 0x85,
            KeyCode::F23 => 0x86,
            KeyCode::F24 => 0x87,
            KeyCode::NumLock => 0x90,
            KeyCode::ScrollLock => 0x91,
            KeyCode::LeftShift => 0xA0,
            KeyCode::RightShift => 0xA1,
            KeyCode::LeftControl => 0xA2,
            KeyCode::RightControl => 0xA3,
            KeyCode::LeftAlt => 0xA4,
            KeyCode::RightAlt => 0xA5,
            KeyCode::BrowserBack => 0xA6,
            KeyCode::BrowserForward => 0xA7,
            KeyCode::BrowserRefresh => 0xA8,
            KeyCode::BrowserStop => 0xA9,
            KeyCode::BrowserSearch => 0xAA,
            KeyCode::BrowserFavorites => 0xAB,
            KeyCode::BrowserHome => 0xAC,
            KeyCode::VolumeMute => 0xAD,
            KeyCode::VolumeDown => 0xAE,
            KeyCode::VolumeUp => 0xAF,
            KeyCode::MediaNextTrack => 0xB0,
            KeyCode::MediaPreviousTrack => 0xB1,
            KeyCode::MediaStop => 0xB2,
            KeyCode::MediaPlayPause => 0xB3,
            KeyCode::LaunchMail => 0xB4,
            KeyCode::LaunchMediaSelect => 0xB5,
            KeyCode::LaunchApp1 => 0xB6,
            KeyCode::LaunchApp2 => 0xB7,
            KeyCode::Semicolon => 0xBA,
            KeyCode::Plus => 0xBB,
            KeyCode::Comma => 0xBC,
            KeyCode::Minus => 0xBD,
            KeyCode::Period => 0xBE,
            KeyCode::Slash => 0xBF,
            KeyCode::Backquote => 0xC0,
            KeyCode::LeftBracket => 0xDB,
            KeyCode::Backslash => 0xDC,
            KeyCode::RightBracket => 0xDD,
            KeyCode::Quote => 0xDE,
            KeyCode::Oem8 => 0xDF,
            KeyCode::Oem102 => 0xE2,
        }
    }

    /// The key with virtual-key number `code`, if there is one.
    pub open spec fn spec_from_virtual_key(code: int) -> Option<KeyCode> {
        if exists|key: KeyCode| key.spec_value() == code {
            Some(choose|key: KeyCode| key.spec_value() == code)
        } else {
            None
        }
    }

    /// No two keys share a virtual-key number.
    pub proof fn lemma_value_injective(a: KeyCode, b: KeyCode)
        requires
            a.spec_value() == b.spec_value(),
        ensures
            a == b,
    {
    }

    /// Looking up the number of a key gives that key back.
    pub proof fn lemma_lookup_of_value(key: KeyCode)
        ensures
            KeyCode::spec_from_virtual_key(key.spec_value() as int) == Some(key),
    {
        let found = choose|other: KeyCode| other.spec_value() == key.spec_value();
        KeyCode::lemma_value_injective(found, key);
    }

    /// The platform's virtual-key number of this key.
    #[verifier::when_used_as_spec(spec_value)]
    pub fn value(self) -> (v: u8)
        ensures
            v == self.spec_value(),
            v < 255,
    {
        match self {
            KeyCode::Backspace => 0x08,
            KeyCode::Tab => 0x09,
            KeyCode::Clear => 0x0C,
            KeyCode::Enter => 0x0D,
            KeyCode::Shift => 0x10,
            KeyCode::Control => 0x11,
            KeyCode::Alt => 0x12,
            KeyCode::Pause => 0x13,
            KeyCode::CapsLock => 0x14,
            KeyCode::Escape => 0x1B,
            KeyCode::Space => 0x20,
            KeyCode::PageUp => 0x21,
            KeyCode::PageDown => 0x22,
            KeyCode::End => 0x23,
            KeyCode::Home => 0x24,
            KeyCode::Left => 0x25,
            KeyCode::Up => 0x26,
            KeyCode::Right => 0x27,
            KeyCode::Down => 0x28,
            KeyCode::Select => 0x29,
            KeyCode::Print => 0x2A,
            KeyCode::Execute => 0x2B,
            KeyCode::PrintScreen => 0x2C,
            KeyCode::Insert => 0x2D,
            KeyCode::Delete => 0x2E,
            KeyCode::Help => 0x2F,
            KeyCode::Digit0 => 0x30,
            KeyCode::Digit1 => 0x31,
            KeyCode::Digit2 => 0x32,
            KeyCode::Digit3 => 0x33,
            KeyCode::Digit4 => 0x34,
            KeyCode::Digit5 => 0x35,
            KeyCode::Digit6 => 0x36,
            KeyCode::Digit7 => 0x37,
            KeyCode::Digit8 => 0x38,
            KeyCode::Digit9 => 0x39,
            KeyCode::A => 0x41,
            KeyCode::B => 0x42,
            KeyCode::C => 0x43,
            KeyCode::D => 0x44,
            KeyCode::E => 0x45,
            KeyCode::F => 0x46,
            KeyCode::G => 0x47,
            KeyCode::H => 0x48,
            KeyCode::I => 0x49,
            KeyCode::J => 0x4A,
            KeyCode::K => 0x4B,
            KeyCode::L => 0x4C,
            KeyCode::M => 0x4D,
            KeyCode::N => 0x4E,
            KeyCode::O => 0x4F,
            KeyCode::P => 0x50,
            KeyCode::Q => 0x51,
            KeyCode::R => 0x52,
            KeyCode::S => 0x53,
            KeyCode::T => 0x54,
            KeyCode::U => 0x55,
            KeyCode::V => 0x56,
            KeyCode::W => 0x57,
            KeyCode::X => 0x58,
            KeyCode::Y => 0x59,
            KeyCode::Z => 0x5A,
            KeyCode::LeftWindows => 0x5B,
            KeyCode::RightWindows => 0x5C,
            KeyCode::Apps => 0x5D,
            KeyCode::Sleep => 0x5F,
            KeyCode::Numpad0 => 0x60,
            KeyCode::Numpad1 => 0x61,
            KeyCode::Numpad2 => 0x62,
            KeyCode::Numpad3 => 0x63,
            KeyCode::Numpad4 => 0x64,
            KeyCode::Numpad5 => 0x65,
            KeyCode::Numpad6 => 0x66,
            KeyCode::Numpad7 => 0x67,
            KeyCode::Numpad8 => 0x68,
            KeyCode::Numpad9 => 0x69,
            KeyCode::NumpadMultiply => 0x6A,
            KeyCode::NumpadAdd => 0x6B,
            KeyCode::NumpadSeparator => 0x6C,
            KeyCode::NumpadSubtract => 0x6D,
            KeyCode::NumpadDecimal => 0x6E,
            KeyCode::NumpadDivide => 0x6F,
            KeyCode::F1 => 0x70,
            KeyCode::F2 => 0x71,
            KeyCode::F3 => 0x72,
            KeyCode::F4 => 0x73,
            KeyCode::F5 => 0x74,
            KeyCode::F6 => 0x75,
            KeyCode::F7 => 0x76,
            KeyCode::F8 => 0x77,
            KeyCode::F9 => 0x78,
            KeyCode::F10 => 0x79,
            KeyCode::F11 => 0x7A,
            KeyCode::F12 => 0x7B,
            KeyCode::F13 => 0x7C,
            KeyCode::F14 => 0x7D,
            KeyCode::F15 => 0x7E,
            KeyCode::F16 => 0x7F,
            KeyCode::F17 => 0x80,
            KeyCode::F18 => 0x81,
            KeyCode::F19 => 0x82,
            KeyCode::F20 => 0x83,
            KeyCode::F21 => 0x84,
            KeyCode::F22 => 0x85,
            KeyCode::F23 => 0x86,
            KeyCode::F24 => 0x87,
            KeyCode::NumLock => 0x90,
            KeyCode::ScrollLock => 0x91,
            KeyCode::LeftShift => 0xA0,
            KeyCode::RightShift => 0xA1,
            KeyCode::LeftControl => 0xA2,
            KeyCode::RightControl => 0xA3,
            KeyCode::LeftAlt => 0xA4,
            KeyCode::RightAlt => 0xA5,
            KeyCode::BrowserBack => 0xA6,
            KeyCode::BrowserForward => 0xA7,
            KeyCode::BrowserRefresh => 0xA8,
            KeyCode::BrowserStop => 0xA9,
            KeyCode::BrowserSearch => 0xAA,
            KeyCode::BrowserFavorites => 0xAB,
            KeyCode::BrowserHome => 0xAC,
            KeyCode::VolumeMute => 0xAD,
            KeyCode::VolumeDown => 0xAE,
            KeyCode::VolumeUp => 0xAF,
            KeyCode::MediaNextTrack => 0xB0,
            KeyCode::MediaPreviousTrack => 0xB1,
            KeyCode::MediaStop => 0xB2,
            KeyCode::MediaPlayPause => 0xB3,
            KeyCode::LaunchMail => 0xB4,
            KeyCode::LaunchMediaSelect => 0xB5,
            KeyCode::LaunchApp1 => 0xB6,
            KeyCode::LaunchApp2 => 0xB7,
            KeyCode::Semicolon => 0xBA,
            KeyCode::Plus => 0xBB,
            KeyCode::Comma => 0xBC,
            KeyCode::Minus => 0xBD,
            KeyCode::Period => 0xBE,
            KeyCode::Slash => 0xBF,
            KeyCode::Backquote => 0xC0,
            KeyCode::LeftBracket => 0xDB,
            KeyCode::Backslash => 0xDC,
            KeyCode::RightBracket => 0xDD,
            KeyCode::Quote => 0xDE,
            KeyCode::Oem8 => 0xDF,
            KeyCode::Oem102 => 0xE2,
        }
    }

    /// Looks up the key that a platform virtual-key number stands for.
    ///
    /// Returns `None` for a number that stands for no key of [`KeyCode`].
    pub fn from_virtual_key(code: usize) -> (key: Option<KeyCode>)
        ensures
            key == KeyCode::spec_from_virtual_key(code as int),
            key matches Some(k) ==> k.spec_value() == code,
            key is None ==> forall|k: KeyCode| k.spec_value() != code,
    {
        let key = match code {
            0x08 => Some(KeyCode::Backspace),
            0x09 => Some(KeyCode::Tab),
            0x0C => Some(KeyCode::Clear),
            0x0D => Some(KeyCode::Enter),
            0x10 => Some(KeyCode::Shift),
            0x11 => Some(KeyCode::Control),
            0x12 => Some(KeyCode::Alt),
            0x13 => Some(KeyCode::Pause),
            0x14 => Some(KeyCode::CapsLock),
            0x1B => Some(KeyCode::Escape),
            0x20 => Some(KeyCode::Space),
            0x21 => Some(KeyCode::PageUp),
            0x22 => Some(KeyCode::PageDown),
            0x23 => Some(KeyCode::End),
            0x24 => Some(KeyCode::Home),
            0x25 => Some(KeyCode::Left),
            0x26 => Some(KeyCode::Up),
            0x27 => Some(KeyCode::Right),
            0x28 => Some(KeyCode::Down),
            0x29 => Some(KeyCode::Select),
            0x2A => Some(KeyCode::Print),
            0x2B => Some(KeyCode::Execute),
            0x2C => Some(KeyCode::PrintScreen),
            0x2D => Some(KeyCode::Insert),
            0x2E => Some(KeyCode::Delete),
            0x2F => Some(KeyCode::Help),
            0x30 => Some(KeyCode::Digit0),
            0x31 => Some(KeyCode::Digit1),
            0x32 => Some(KeyCode::Digit2),
            0x33 => Some(KeyCode::Digit3),
            0x34 => Some(KeyCode::Digit4),
            0x35 => Some(KeyCode::Digit5),
            0x36 => Some(KeyCode::Digit6),
            0x37 => Some(KeyCode::Digit7),
            0x38 => Some(KeyCode::Digit8),
            0x39 => Some(KeyCode::Digit9),
            0x41 => Some(KeyCode::A),
            0x42 => Some(KeyCode::B),
            0x43 => Some(KeyCode::C),
            0x44 => Some(KeyCode::D),
            0x45 => Some(KeyCode::E),
            0x46 => Some(KeyCode::F),
            0x47 => Some(KeyCode::G),
            0x48 => Some(KeyCode::H),
            0x49 => Some(KeyCode::I),
            0x4A => Some(KeyCode::J),
            0x4B => Some(KeyCode::K),
            0x4C => Some(KeyCode::L),
            0x4D => Some(KeyCode::M),
            0x4E => Some(KeyCode::N),
            0x4F => Some(KeyCode::O),
            0x50 => Some(KeyCode::P),
            0x51 => Some(KeyCode::Q),
            0x52 => Some(KeyCode::R),
            0x53 => Some(KeyCode::S),
            0x54 => Some(KeyCode::T),
            0x55 => Some(KeyCode::U),
            0x56 => Some(KeyCode::V),
            0x57 => Some(KeyCode::W),
            0x58 => Some(KeyCode::X),
            0x59 => Some(KeyCode::Y),
            0x5A => Some(KeyCode::Z),
            0x5B => Some(KeyCode::LeftWindows),
            0x5C => Some(KeyCode::RightWindows),
            0x5D => Some(KeyCode::Apps),
            0x5F => Some(KeyCode::Sleep),
            0x60 => Some(KeyCode::Numpad0),
            0x61 => Some(KeyCode::Numpad1),
            0x62 => Some(KeyCode::Numpad2),
            0x63 => Some(KeyCode::Numpad3),
            0x64 => Some(KeyCode::Numpad4),
            0x65 => Some(KeyCode::Numpad5),
            0x66 => Some(KeyCode::Numpad6),
            0x67 => Some(KeyCode::Numpad7),
            0x68 => Some(KeyCode::Numpad8),
            0x69 => Some(KeyCode::Numpad9),
            0x6A => Some(KeyCode::NumpadMultiply),
            0x6B => Some(KeyCode::NumpadAdd),
            0x6C => Some(KeyCode::NumpadSeparator),
            0x6D => Some(KeyCode::NumpadSubtract),
            0x6E => Some(KeyCode::NumpadDecimal),
            0x6F => Some(KeyCode::NumpadDivide),
            0x70 => Some(KeyCode::F1),
            0x71 => Some(KeyCode::F2),
            0x72 => Some(KeyCode::F3),
            0x73 => Some(KeyCode::F4),
            0x74 => Some(KeyCode::F5),
            0x75 => Some(KeyCode::F6),
            0x76 => Some(KeyCode::F7),
            0x77 => Some(KeyCode::F8),
            0x78 => Some(KeyCode::F9),
            0x79 => Some(KeyCode::F10),
            0x7A => Some(KeyCode::F11),
            0x7B => Some(KeyCode::F12),
            0x7C => Some(KeyCode::F13),
            0x7D => Some(KeyCode::F14),
            0x7E => Some(KeyCode::F15),
            0x7F => Some(KeyCode::F16),
            0x80 => Some(KeyCode::F17),
            0x81 => Some(KeyCode::F18),
            0x82 => Some(KeyCode::F19),
            0x83 => Some(KeyCode::F20),
            0x84 => Some(KeyCode::F21),
            0x85 => Some(KeyCode::F22),
            0x86 => Some(KeyCode::F23),
            0x87 => Some(KeyCode::F24),
            0x90 => Some(KeyCode::NumLock),
            0x91 => Some(KeyCode::ScrollLock),
            0xA0 => Some(KeyCode::LeftShift),
            0xA1 => Some(KeyCode::RightShift),
            0xA2 => Some(KeyCode::LeftControl),
            0xA3 => Some(KeyCode::RightControl),
            0xA4 => Some(KeyCode::LeftAlt),
            0xA5 => Some(KeyCode::RightAlt),
            0xA6 => Some(KeyCode::BrowserBack),
            0xA7 => Some(KeyCode::BrowserForward),
            0xA8 => Some(KeyCode::BrowserRefresh),
            0xA9 => Some(KeyCode::BrowserStop),
            0xAA => Some(KeyCode::BrowserSearch),
            0xAB => Some(KeyCode::BrowserFavorites),
            0xAC => Some(KeyCode::BrowserHome),
            0xAD => Some(KeyCode::VolumeMute),
            0xAE => Some(KeyCode::VolumeDown),
            0xAF => Some(KeyCode::VolumeUp),
            0xB0 => Some(KeyCode::MediaNextTrack),
            0xB1 => Some(KeyCode::MediaPreviousTrack),
            0xB2 => Some(KeyCode::MediaStop),
            0xB3 => Some(KeyCode::MediaPlayPause),
            0xB4 => Some(KeyCode::LaunchMail),
            0xB5 => Some(KeyCode::LaunchMediaSelect),
            0xB6 => Some(KeyCode::LaunchApp1),
            0xB7 => Some(KeyCode::LaunchApp2),
            0xBA => Some(KeyCode::Semicolon),
            0xBB => Some(KeyCode::Plus),
            0xBC => Some(KeyCode::Comma),
            0xBD => Some(KeyCode::Minus),
            0xBE => Some(KeyCode::Period),
            0xBF => Some(KeyCode::Slash),
            0xC0 => Some(KeyCode::Backquote),
            0xDB => Some(KeyCode::LeftBracket),
            0xDC => Some(KeyCode::Backslash),
            0xDD => Some(KeyCode::RightBracket),
            0xDE => Some(KeyCode::Quote),
            0xDF => Some(KeyCode::Oem8),
            0xE2 => Some(KeyCode::Oem102),
            _ => None,
        };
        proof {
            if let Some(k) = key {
                KeyCode::lemma_lookup_of_value(k);
            }
        }
        key
    }

    /// Every key, in the order of the virtual-key numbers.
    pub fn all() -> (keys: Vec<KeyCode>)
        ensures
            forall|key: KeyCode| keys@.contains(key),
            forall|i: int, j: int|
                0 <= i < j < keys@.len() ==> keys@[i].spec_value() < keys@[j].spec_value(),
    {
        let mut keys: Vec<KeyCode> = Vec::new();
        let mut code: usize = 0;
        while code < 256
            invariant
                code <= 256,
                forall|key: KeyCode| key.spec_value() < code ==> keys@.contains(key),
                forall|i: int| 0 <= i < keys@.len() ==> (#[trigger] keys@[i]).spec_value() < code,
                forall|i: int, j: int|
                    0 <= i < j < keys@.len() ==> keys@[i].spec_value() < keys@[j].spec_value(),
            decreases 256 - code,
        {
            let ghost before = keys@;
            if let Some(key) = KeyCode::from_virtual_key(code) {
                keys.push(key);
                proof {
                    assert(keys@[before.len() as int] == key);
                    assert forall|other: KeyCode| other.spec_value() < code + 1 implies keys@.contains(
                        other,
                    ) by {
                        if other.spec_value() < code {
                            assert(before.contains(other));
                            let i = before.index_of(other);
                            assert(keys@[i] == other);
                        } else {
                            KeyCode::lemma_value_injective(other, key);
                        }
                    }
                }
            }
            code += 1;
        }
        keys
    }
}

} // verus!
