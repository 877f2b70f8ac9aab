use vstd::prelude::*;
use crate::event::Event;
use crate::input::{
    Key, digit, digit_key, function, function_key, keypad_digit, keypad_key, letter, letter_key,
    punctuation_key, punctuation_to_key,
};

verus! {

/// The virtual-key code of F4 and of F10.
pub const VK_F4: u32 = 0x73;
pub const VK_F10: u32 = 0x79;

/// Keys with a virtual-key code of their own, outside the letter, digit,
/// keypad-digit and function-key ranges.
pub open spec fn fixed_vk_key(vk: int) -> Option<Key> {
    if vk == 0x08 { Some(Key::Backspace) }
    else if vk == 0x09 { Some(Key::Tab) }
    else if vk == 0x0C { Some(Key::Clear) }
    else if vk == 0x0D { Some(Key::Return) }
    else if vk == 0x10 { Some(Key::LeftShift) }
    else if vk == 0x11 { Some(Key::LeftControl) }
    else if vk == 0x12 { Some(Key::LeftAlt) }
    else if vk == 0x13 { Some(Key::Pause) }
    else if vk == 0x14 { Some(Key::CapsLock) }
    else if vk == 0x15 { Some(Key::ImeKanaOrHangul) }
    else if vk == 0x16 { Some(Key::ImeOn) }
    else if vk == 0x17 { Some(Key::ImeJunja) }
    else if vk == 0x18 { Some(Key::ImeFinal) }
    else if vk == 0x19 { Some(Key::ImeHanjaOrKanji) }
    else if vk == 0x1A { Some(Key::ImeOff) }
    else if vk == 0x1B { Some(Key::Escape) }
    else if vk == 0x1C { Some(Key::ImeConvert) }
    else if vk == 0x1D { Some(Key::ImeNonConvert) }
    else if vk == 0x1E { Some(Key::ImeAccept) }
    else if vk == 0x1F { Some(Key::ImeModeChangeRequest) }
    else if vk == 0x20 { Some(Key::Space) }
    else if vk == 0x21 { Some(Key::PageUp) }
    else if vk == 0x22 { Some(Key::PageDown) }
    else if vk == 0x23 { Some(Key::End) }
    else if vk == 0x24 { Some(Key::Home) }
    else if vk == 0x25 { Some(Key::LeftArrow) }
    else if vk == 0x26 { Some(Key::UpArrow) }
    else if vk == 0x27 { Some(Key::RightArrow) }
    else if vk == 0x28 { Some(Key::DownArrow) }
    else if vk == 0x29 { Some(Key::Select) }
    else if vk == 0x2A { Some(Key::Print) }
    else if vk == 0x2B { Some(Key::Execute) }
    else if vk == 0x2C { Some(Key::PrintScreen) }
    else if vk == 0x2D { Some(Key::Insert) }
    else if vk == 0x2E { Some(Key::Delete) }
    else if vk == 0x2F { Some(Key::Help) }
    else if vk == 0x5B { Some(Key::LeftSuper) }
    else if vk == 0x5C { Some(Key::RightSuper) }
    else if vk == 0x5D { Some(Key::Applications) }
    else if vk == 0x5F { Some(Key::Sleep) }
    else if vk == 0x6A { Some(Key::KeypadMultiply) }
    else if vk == 0x6B { Some(Key::KeypadAdd) }
    else if vk == 0x6C { Some(Key::KeypadSeparator) }
    else if vk == 0x6D { Some(Key::KeypadSubtract) }
    else if vk == 0x6E { Some(Key::KeypadDecimal) }
    else if vk == 0x6F { Some(Key::KeypadDivide) }
    else if vk == 0x90 { Some(Key::NumLock) }
    else if vk == 0x91 { Some(Key::ScrollLock) }
    else if vk == 0xA0 { Some(Key::LeftShift) }
    else if vk == 0xA1 { Some(Key::RightShift) }
    else if vk == 0xA2 { Some(Key::LeftControl) }
    else if vk == 0xA3 { Some(Key::RightControl) }
    else if vk == 0xA4 { Some(Key::LeftAlt) }
    else if vk == 0xA5 { Some(Key::RightAlt) }
    else if vk == 0xA6 { Some(Key::BrowserBack) }
    else if vk == 0xA7 { Some(Key::BrowserForward) }
    else if vk == 0xA8 { Some(Key::BrowserRefresh) }
    else if vk == 0xA9 { Some(Key::BrowserStop) }
    else if vk == 0xAA { Some(Key::BrowserSearch) }
    else if vk == 0xAB { Some(Key::BrowserFavourites) }
    else if vk == 0xAC { Some(Key::BrowserHome) }
    else if vk == 0xAD { Some(Key::MediaVolumeMute) }
    else if vk == 0xAE { Some(Key::MediaVolumeDown) }
    else if vk == 0xAF { Some(Key::MediaVolumeUp) }
    else if vk == 0xB0 { Some(Key::MediaNextTrack) }
    else if vk == 0xB1 { Some(Key::MediaPreviousTrack) }
    else if vk == 0xB2 { Some(Key::MediaStop) }
    else if vk == 0xB3 { Some(Key::MediaPlayPause) }
    else if vk == 0xB4 { Some(Key::LaunchMail) }
    else if vk == 0xB5 { Some(Key::LaunchMediaSelect) }
    else if vk == 0xB6 { Some(Key::LaunchApplication1) }
    else if vk == 0xB7 { Some(Key::LaunchApplication2) }
    else if vk == 0xE2 { Some(Key::Oem102) }
    else if vk == 0xE5 { Some(Key::ImeProcess) }
    else if vk == 0xF6 { Some(Key::Attn) }
    else if vk == 0xF7 { Some(Key::CrSel) }
    else if vk == 0xF8 { Some(Key::ExSel) }
    else if vk == 0xF9 { Some(Key::EraseEof) }
    else if vk == 0xFA { Some(Key::Play) }
    else if vk == 0xFB { Some(Key::Zoom) }
    else if vk == 0xFD { Some(Key::Pa1) }
    else if vk == 0xFE { Some(Key::OemClear) }
    else { None }
}

/// Whether the key with code `vk` is an OEM key, whose meaning depends on
/// the keyboard layout: such a key is named after the character that the
/// layout gives it.
pub open spec fn is_layout_key(vk: int) -> bool {
    (0xBA <= vk <= 0xC0) || (0xDB <= vk <= 0xDF)
}

/// The key for virtual-key code `vk`; `layout_char` is the character the
/// keyboard layout gives an OEM key (consulted for those alone).
pub open spec fn vk_key(vk: int, layout_char: int) -> Option<Key> {
    if 0x30 <= vk <= 0x39 { Some(digit_key(vk - 0x30)) }
    else if 0x41 <= vk <= 0x5A { Some(letter_key(vk - 0x41)) }
    else if 0x60 <= vk <= 0x69 { Some(keypad_key(vk - 0x60)) }
    else if 0x70 <= vk <= 0x87 { Some(function_key(vk - 0x70)) }
    else if is_layout_key(vk) { punctuation_key(layout_char) }
    else { fixed_vk_key(vk) }
}

/// Whether the character of the key with code `vk` must be looked up in
/// the keyboard layout before the key can be translated.
pub fn needs_layout_char(vk: u8) -> (r: bool)
    ensures
        r == is_layout_key(vk as int),
{
    (0xBA <= vk && vk <= 0xC0) || (0xDB <= vk && vk <= 0xDF)
}

/// Translates a virtual-key code into a key. `layout_char` is the character
/// the keyboard layout maps the key to; it matters only when
/// `needs_layout_char(vk)`.
pub fn translate_vk(vk: u8, layout_char: u32) -> (r: Option<Key>)
    ensures
        r == vk_key(vk as int, layout_char as int),
{
    match vk {
        0x30..=0x39 => Some(digit((vk - 0x30) as u32)),
        0x41..=0x5A => Some(letter((vk - 0x41) as u32)),
        0x60..=0x69 => Some(keypad_digit((vk - 0x60) as u32)),
        0x70..=0x87 => Some(function((vk - 0x70) as u32)),
        0xBA..=0xC0 | 0xDB..=0xDF => punctuation_to_key(layout_char),
        0x08 => Some(Key::Backspace),
        0x09 => Some(Key::Tab),
        0x0C => Some(Key::Clear),
        0x0D => Some(Key::Return),
        0x10 => Some(Key::LeftShift),
        0x11 => Some(Key::LeftControl),
        0x12 => Some(Key::LeftAlt),
        0x13 => Some(Key::Pause),
        0x14 => Some(Key::CapsLock),
        0x15 => Some(Key::ImeKanaOrHangul),
        0x16 => Some(Key::ImeOn),
        0x17 => Some(Key::ImeJunja),
        0x18 => Some(Key::ImeFinal),
        0x19 => Some(Key::ImeHanjaOrKanji),
        0x1A => Some(Key::ImeOff),
        0x1B => Some(Key::Escape),
        0x1C => Some(Key::ImeConvert),
        0x1D => Some(Key::ImeNonConvert),
        0x1E => Some(Key::ImeAccept),
        0x1F => Some(Key::ImeModeChangeRequest),
        0x20 => Some(Key::Space),
        0x21 => Some(Key::PageUp),
        0x22 => Some(Key::PageDown),
        0x23 => Some(Key::End),
        0x24 => Some(Key::Home),
        0x25 => Some(Key::LeftArrow),
        0x26 => Some(Key::UpArrow),
        0x27 => Some(Key::RightArrow),
        0x28 => Some(Key::DownArrow),
        0x29 => Some(Key::Select),
        0x2A => Some(Key::Print),
        0x2B => Some(Key::Execute),
        0x2C => Some(Key::PrintScreen),
        0x2D => Some(Key::Insert),
        0x2E => Some(Key::Delete),
        0x2F => Some(Key::Help),
        0x5B => Some(Key::LeftSuper),
        0x5C => Some(Key::RightSuper),
        0x5D => Some(Key::Applications),
        0x5F => Some(Key::Sleep),
        0x6A => Some(Key::KeypadMultiply),
        0x6B => Some(Key::KeypadAdd),
        0x6C => Some(Key::KeypadSeparator),
        0x6D => Some(Key::KeypadSubtract),
        0x6E => Some(Key::KeypadDecimal),
        0x6F => Some(Key::KeypadDivide),
        0x90 => Some(Key::NumLock),
        0x91 => Some(Key::ScrollLock),
        0xA0 => Some(Key::LeftShift),
        0xA1 => Some(Key::RightShift),
        0xA2 => Some(Key::LeftControl),
        0xA3 => Some(Key::RightControl),
        0xA4 => Some(Key::LeftAlt),
        0xA5 => Some(Key::RightAlt),
        0xA6 => Some(Key::BrowserBack),
        0xA7 => Some(Key::BrowserForward),
        0xA8 => Some(Key::BrowserRefresh),
        0xA9 => Some(Key::BrowserStop),
        0xAA => Some(Key::BrowserSearch),
        0xAB => Some(Key::BrowserFavourites),
        0xAC => Some(Key::BrowserHome),
        0xAD => Some(Key::MediaVolumeMute),
        0xAE => Some(Key::MediaVolumeDown),
        0xAF => Some(Key::MediaVolumeUp),
        0xB0 => Some(Key::MediaNextTrack),
        0xB1 => Some(Key::MediaPreviousTrack),
        0xB2 => Some(Key::MediaStop),
        0xB3 => Some(Key::MediaPlayPause),
        0xB4 => Some(Key::LaunchMail),
        0xB5 => Some(Key::LaunchMediaSelect),
        0xB6 => Some(Key::LaunchApplication1),
        0xB7 => Some(Key::LaunchApplication2),
        0xE2 => Some(Key::Oem102),
        0xE5 => Some(Key::ImeProcess),
        0xF6 => Some(Key::Attn),
        0xF7 => Some(Key::CrSel),
        0xF8 => Some(Key::ExSel),
        0xF9 => Some(Key::EraseEof),
        0xFA => Some(Key::Play),
        0xFB => Some(Key::Zoom),
        0xFD => Some(Key::Pa1),
        0xFE => Some(Key::OemClear),
        _ => None,
    }
}

/// The scan code field of a key message's flags.
pub open spec fn scan_code(flags: u32) -> int {
    ((flags / 65536) % 256) as int
}

/// Whether a key message's flags mark an extended key.
pub open spec fn is_extended(flags: u32) -> bool {
    (flags / 16777216) % 2 == 1
}

/// Whether a key message's flags mark Alt held down.
pub open spec fn alt_down(flags: u32) -> bool {
    (flags / 536870912) % 2 == 1
}

/// Whether a key message's flags mark a key that was already down.
pub open spec fn was_down(flags: u32) -> bool {
    (flags / 1073741824) % 2 == 1
}

/// Whether a key message's flags mark a release.
pub open spec fn is_release(flags: u32) -> bool {
    flags >= 2147483648
}

/// The right-hand key that a left-hand key stands for according to the
/// message flags: right Shift by its scan code, right Control and right Alt
/// by the extended-key flag.
pub open spec fn extended_key(key: Key, flags: u32) -> Key {
    if key == Key::LeftShift && scan_code(flags) == 54 { Key::RightShift }
    else if key == Key::LeftControl && is_extended(flags) { Key::RightControl }
    else if key == Key::LeftAlt && is_extended(flags) { Key::RightAlt }
    else { key }
}

/// Tells the left and right modifier keys apart using the flags of the key
/// message.
pub fn extend_key(key: Key, flags: u32) -> (r: Key)
    ensures
        r == extended_key(key, flags),
{
    let scancode = (flags / 65536) % 256;
    let extended = (flags / 16777216) % 2 == 1;
    match key {
        Key::LeftShift if scancode == 54 => Key::RightShift,
        Key::LeftControl if extended => Key::RightControl,
        Key::LeftAlt if extended => Key::RightAlt,
        k => k,
    }
}

/// The event a key message reports: a release, a repeat of a key already
/// down, or a fresh press.
pub open spec fn key_transition(key: Key, flags: u32) -> Event {
    if is_release(flags) { Event::KeyboardUp(key) }
    else if was_down(flags) { Event::KeyboardRepeat(key) }
    else { Event::KeyboardDown(key) }
}

/// Reads the transition state of a key message.
pub fn map_tr_state(key: Key, flags: u32) -> (r: Event)
    ensures
        r == key_transition(key, flags),
{
    if flags < 2147483648 {
        if (flags / 1073741824) % 2 == 1 {
            Event::KeyboardRepeat(key)
        } else {
            Event::KeyboardDown(key)
        }
    } else {
        Event::KeyboardUp(key)
    }
}

/// The event of a system key message. Such a message also comes for keys
/// pressed with no window focused; it stands for a key only for F10, with
/// Alt held, or on a release.
pub open spec fn sys_key(vk: int, flags: u32, layout_char: int) -> Option<Event> {
    if vk != VK_F10 && !alt_down(flags) && !is_release(flags) {
        None
    } else {
        match vk_key(vk, layout_char) {
            Some(k) => Some(key_transition(extended_key(k, flags), flags)),
            None => None,
        }
    }
}

/// Translates a system key message.
pub fn sys_key_event(vk: u8, flags: u32, layout_char: u32) -> (r: Option<Event>)
    ensures
        r == sys_key(vk as int, flags, layout_char as int),
{
    let alt = (flags / 536870912) % 2 == 1;
    let release = flags >= 2147483648;
    if vk as u32 != VK_F10 && !alt && !release {
        return None;
    }
    match translate_vk(vk, layout_char) {
        Some(k) => Some(map_tr_state(extend_key(k, flags), flags)),
        None => None,
    }
}

} // verus!
