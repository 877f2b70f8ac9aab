use vstd::prelude::*;

verus! {

/// A mouse button.
#[derive(Clone, Copy, Debug, PartialEq, Eq, Hash, Structural)]
pub enum MouseButton {
    Left,
    Middle,
    Right,
}

/// A physical keyboard key, independent of the platform's key codes.
#[derive(Clone, Copy, Debug, PartialEq, Eq, Hash, Structural)]
pub enum Key {
    // common
    LeftAlt,
    RightAlt,
    Applications,
    Backspace,
    CapsLock,
    LeftControl,
    RightControl,
    Delete,
    End,
    Escape,
    Home,
    Insert,
    NumLock,
    PageDown,
    PageUp,
    Pause,
    PrintScreen,
    Return,
    ScrollLock,
    Sleep,
    Space,
    LeftShift,
    RightShift,
    LeftSuper,
    RightSuper,
    Tab,
    F1, F2, F3, F4, F5, F6, F7, F8, F9, F10, F11, F12,
    F13, F14, F15, F16, F17, F18, F19, F20, F21, F22, F23, F24,
    // alphanumeric
    A, B, C, D, E, F, G, H, I, J, K, L, M, N, O, P, Q, R, S, T, U, V, W, X, Y, Z,
    Alpha0, Alpha1, Alpha2, Alpha3, Alpha4, Alpha5, Alpha6, Alpha7, Alpha8, Alpha9,
    OemComma, OemMinus, OemPeriod, OemPlus, Oem1, Oem2, Oem3, Oem4, Oem5, Oem6, Oem7, Oem8,
    // punctuation, named by the character the key produces
    Apostrophe, Backslash, BraceLeft, BraceRight, BracketLeft, BracketRight, Colon, Comma,
    Equals, Grave, GreaterThan, Hash, LessThan, Minus, Period, Pipe, Plus, QuestionMark,
    Quote, Semicolon, Slash, Underscore,
    // numpad
    KeypadAdd, KeypadSubtract, KeypadMultiply, KeypadDivide,
    KeypadDecimal, KeypadSeparator,
    Keypad0, Keypad1, Keypad2, Keypad3, Keypad4, Keypad5, Keypad6, Keypad7, Keypad8, Keypad9,
    // arrows
    LeftArrow,
    RightArrow,
    UpArrow,
    DownArrow,
    // media
    MediaPreviousTrack,
    MediaNextTrack,
    MediaPlayPause,
    MediaStop,
    MediaVolumeDown,
    MediaVolumeUp,
    MediaVolumeMute,
    // terminal keys
    Attn,
    Clear,
    CrSel,
    EraseEof,
    Execute,
    ExSel,
    OemReset,
    OemJump,
    Oem102,
    OemPa1,
    OemPa2,
    OemPa3,
    OemWsCtrl,
    OemClear,
    OemCuSel,
    OemAttn,
    OemFinish,
    OemCopy,
    OemAuto,
    OemEnlw,
    OemBackTab,
    Pa1,
    Print,
    Select,
    Zoom,
    // input method
    ImeAccept,
    ImeConvert,
    ImeNonConvert,
    ImeFinal,
    ImeModeChangeRequest,
    ImeProcess,
    ImeOn,
    ImeOff,
    ImeKanaOrHangul,
    ImeHanjaOrKanji,
    ImeJunja,
    // browser and launcher keys
    BrowserBack,
    BrowserFavourites,
    BrowserForward,
    BrowserHome,
    BrowserRefresh,
    BrowserSearch,
    BrowserStop,
    Help,
    LaunchApplication1,
    LaunchApplication2,
    LaunchMail,
    LaunchMediaSelect,
    Play,
}

/// The letter key `A` + `i`.
pub open spec fn letter_key(i: int) -> Key {
    if i == 0 { Key::A } else if i == 1 { Key::B } else if i == 2 { Key::C }
    else if i == 3 { Key::D } else if i == 4 { Key::E } else if i == 5 { Key::F }
    else if i == 6 { Key::G } else if i == 7 { Key::H } else if i == 8 { Key::I }
    else if i == 9 { Key::J } else if i == 10 { Key::K } else if i == 11 { Key::L }
    else if i == 12 { Key::M } else if i == 13 { Key::N } else if i == 14 { Key::O }
    else if i == 15 { Key::P } else if i == 16 { Key::Q } else if i == 17 { Key::R }
    else if i == 18 { Key::S } else if i == 19 { Key::T } else if i == 20 { Key::U }
    else if i == 21 { Key::V } else if i == 22 { Key::W } else if i == 23 { Key::X }
    else if i == 24 { Key::Y } else { Key::Z }
}

/// The digit key of the main block for the digit `i`.
pub open spec fn digit_key(i: int) -> Key {
    if i == 0 { Key::Alpha0 } else if i == 1 { Key::Alpha1 } else if i == 2 { Key::Alpha2 }
    else if i == 3 { Key::Alpha3 } else if i == 4 { Key::Alpha4 } else if i == 5 { Key::Alpha5 }
    else if i == 6 { Key::Alpha6 } else if i == 7 { Key::Alpha7 } else if i == 8 { Key::Alpha8 }
    else { Key::Alpha9 }
}

/// The digit key of the numeric keypad for the digit `i`.
pub open spec fn keypad_key(i: int) -> Key {
    if i == 0 { Key::Keypad0 } else if i == 1 { Key::Keypad1 } else if i == 2 { Key::Keypad2 }
    else if i == 3 { Key::Keypad3 } else if i == 4 { Key::Keypad4 } else if i == 5 { Key::Keypad5 }
    else if i == 6 { Key::Keypad6 } else if i == 7 { Key::Keypad7 } else if i == 8 { Key::Keypad8 }
    else { Key::Keypad9 }
}

/// The function key `F1` + `i`.
pub open spec fn function_key(i: int) -> Key {
    if i == 0 { Key::F1 } else if i == 1 { Key::F2 } else if i == 2 { Key::F3 }
    else if i == 3 { Key::F4 } else if i == 4 { Key::F5 } else if i == 5 { Key::F6 }
    else if i == 6 { Key::F7 } else if i == 7 { Key::F8 } else if i == 8 { Key::F9 }
    else if i == 9 { Key::F10 } else if i == 10 { Key::F11 } else if i == 11 { Key::F12 }
    else if i == 12 { Key::F13 } else if i == 13 { Key::F14 } else if i == 14 { Key::F15 }
    else if i == 15 { Key::F16 } else if i == 16 { Key::F17 } else if i == 17 { Key::F18 }
    else if i == 18 { Key::F19 } else if i == 19 { Key::F20 } else if i == 20 { Key::F21 }
    else if i == 21 { Key::F22 } else if i == 22 { Key::F23 } else { Key::F24 }
}

/// The punctuation key named after the ASCII character `c`, if there is one.
pub open spec fn punctuation_key(c: int) -> Option<Key> {
    if c == 0x22 { Some(Key::Quote) }
    else if c == 0x23 { Some(Key::Hash) }
    else if c == 0x27 { Some(Key::Apostrophe) }
    else if c == 0x2B { Some(Key::Plus) }
    else if c == 0x2C { Some(Key::Comma) }
    else if c == 0x2D { Some(Key::Minus) }
    else if c == 0x2E { Some(Key::Period) }
    else if c == 0x2F { Some(Key::Slash) }
    else if c == 0x3A { Some(Key::Colon) }
    else if c == 0x3B { Some(Key::Semicolon) }
    else if c == 0x3C { Some(Key::LessThan) }
    else if c == 0x3D { Some(Key::Equals) }
    else if c == 0x3E { Some(Key::GreaterThan) }
    else if c == 0x3F { Some(Key::QuestionMark) }
    else if c == 0x5B { Some(Key::BracketLeft) }
    else if c == 0x5C { Some(Key::Backslash) }
    else if c == 0x5D { Some(Key::BracketRight) }
    else if c == 0x5F { Some(Key::Underscore) }
    else if c == 0x60 { Some(Key::Grave) }
    else if c == 0x7B { Some(Key::BraceLeft) }
    else if c == 0x7C { Some(Key::Pipe) }
    else if c == 0x7D { Some(Key::BraceRight) }
    else { None }
}

/// Maps an ASCII punctuation character to the key named after it.
pub fn punctuation_to_key(c: u32) -> (r: Option<Key>)
    ensures
        r == punctuation_key(c as int),
{
    match c {
        0x22 => Some(Key::Quote),
        0x23 => Some(Key::Hash),
        0x27 => Some(Key::Apostrophe),
        0x2B => Some(Key::Plus),
        0x2C => Some(Key::Comma),
        0x2D => Some(Key::Minus),
        0x2E => Some(Key::Period),
        0x2F => Some(Key::Slash),
        0x3A => Some(Key::Colon),
        0x3B => Some(Key::Semicolon),
        0x3C => Some(Key::LessThan),
        0x3D => Some(Key::Equals),
        0x3E => Some(Key::GreaterThan),
        0x3F => Some(Key::QuestionMark),
        0x5B => Some(Key::BracketLeft),
        0x5C => Some(Key::Backslash),
        0x5D => Some(Key::BracketRight),
        0x5F => Some(Key::Underscore),
        0x60 => Some(Key::Grave),
        0x7B => Some(Key::BraceLeft),
        0x7C => Some(Key::Pipe),
        0x7D => Some(Key::BraceRight),
        _ => None,
    }
}

/// The letter key `A` + `i`.
pub(crate) fn letter(i: u32) -> (r: Key)
    requires
        i < 26,
    ensures
        r == letter_key(i as int),
{
    match i {
        0 => Key::A,
        1 => Key::B,
        2 => Key::C,
        3 => Key::D,
        4 => Key::E,
        5 => Key::F,
        6 => Key::G,
        7 => Key::H,
        8 => Key::I,
        9 => Key::J,
        10 => Key::K,
        11 => Key::L,
        12 => Key::M,
        13 => Key::N,
        14 => Key::O,
        15 => Key::P,
        16 => Key::Q,
        17 => Key::R,
        18 => Key::S,
        19 => Key::T,
        20 => Key::U,
        21 => Key::V,
        22 => Key::W,
        23 => Key::X,
        24 => Key::Y,
        _ => Key::Z,
    }
}

/// The digit key of the main block for the digit `i`.
pub(crate) fn digit(i: u32) -> (r: Key)
    requires
        i < 10,
    ensures
        r == digit_key(i as int),
{
    match i {
        0 => Key::Alpha0,
        1 => Key::Alpha1,
        2 => Key::Alpha2,
        3 => Key::Alpha3,
        4 => Key::Alpha4,
        5 => Key::Alpha5,
        6 => Key::Alpha6,
        7 => Key::Alpha7,
        8 => Key::Alpha8,
        _ => Key::Alpha9,
    }
}

/// The digit key of the numeric keypad for the digit `i`.
pub(crate) fn keypad_digit(i: u32) -> (r: Key)
    requires
        i < 10,
    ensures
        r == keypad_key(i as int),
{
    match i {
        0 => Key::Keypad0,
        1 => Key::Keypad1,
        2 => Key::Keypad2,
        3 => Key::Keypad3,
        4 => Key::Keypad4,
        5 => Key::Keypad5,
        6 => Key::Keypad6,
        7 => Key::Keypad7,
        8 => Key::Keypad8,
        _ => Key::Keypad9,
    }
}

/// The function key `F1` + `i`.
pub(crate) fn function(i: u32) -> (r: Key)
    requires
        i < 24,
    ensures
        r == function_key(i as int),
{
    match i {
        0 => Key::F1,
        1 => Key::F2,
        2 => Key::F3,
        3 => Key::F4,
        4 => Key::F5,
        5 => Key::F6,
        6 => Key::F7,
        7 => Key::F8,
        8 => Key::F9,
        9 => Key::F10,
        10 => Key::F11,
        11 => Key::F12,
        12 => Key::F13,
        13 => Key::F14,
        14 => Key::F15,
        15 => Key::F16,
        16 => Key::F17,
        17 => Key::F18,
        18 => Key::F19,
        19 => Key::F20,
        20 => Key::F21,
        21 => Key::F22,
        22 => Key::F23,
        _ => Key::F24,
    }
}

} // verus!
