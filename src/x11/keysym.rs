use vstd::prelude::*;
use crate::input::{
    Key, digit, digit_key, function, function_key, keypad_digit, keypad_key, letter, letter_key,
    punctuation_key, punctuation_to_key,
};

verus! {

/// Keys whose symbols lie outside the character and keypad ranges.
pub open spec fn special_keysym_key(k: int) -> Option<Key> {
    if k == 0xFF08 { Some(Key::Backspace) }
    else if k == 0xFF09 { Some(Key::Tab) }
    else if k == 0xFF0D { Some(Key::Return) }
    else if k == 0xFF13 { Some(Key::Pause) }
    else if k == 0xFF14 { Some(Key::ScrollLock) }
    else if k == 0xFF1B { Some(Key::Escape) }
    else if k == 0xFF50 { Some(Key::Home) }
    else if k == 0xFF51 { Some(Key::LeftArrow) }
    else if k == 0xFF52 { Some(Key::UpArrow) }
    else if k == 0xFF53 { Some(Key::RightArrow) }
    else if k == 0xFF54 { Some(Key::DownArrow) }
    else if k == 0xFF55 { Some(Key::PageUp) }
    else if k == 0xFF56 { Some(Key::PageDown) }
    else if k == 0xFF57 { Some(Key::End) }
    else if k == 0xFF58 { Some(Key::Home) }
    else if k == 0xFF63 { Some(Key::Insert) }
    else if k == 0xFF7F { Some(Key::NumLock) }
    else if k == 0xFFE1 { Some(Key::LeftShift) }
    else if k == 0xFFE2 { Some(Key::RightShift) }
    else if k == 0xFFE3 { Some(Key::LeftControl) }
    else if k == 0xFFE4 { Some(Key::RightControl) }
    else if k == 0xFFE5 { Some(Key::CapsLock) }
    else if k == 0xFFE9 { Some(Key::LeftAlt) }
    else if k == 0xFFEA { Some(Key::RightAlt) }
    else if k == 0xFFEB { Some(Key::LeftSuper) }
    else if k == 0xFFEC { Some(Key::RightSuper) }
    else if k == 0xFFFF { Some(Key::Delete) }
    else { None }
}

/// Keys of the numeric keypad, by the symbol the key yields under the
/// current modifiers (Num Lock turns keypad 0 into Insert, and so on).
pub open spec fn keypad_keysym_key(m: int) -> Option<Key> {
    if 0xFF91 <= m <= 0xFF94 { Some(function_key(m - 0xFF91)) }
    else if 0xFFB0 <= m <= 0xFFB9 { Some(keypad_key(m - 0xFFB0)) }
    else {
        if m == 0xFF80 { Some(Key::Space) }
        else if m == 0xFF89 { Some(Key::Tab) }
        else if m == 0xFF8D { Some(Key::Return) }
        else if m == 0xFF95 { Some(Key::Home) }
        else if m == 0xFF96 { Some(Key::LeftArrow) }
        else if m == 0xFF97 { Some(Key::UpArrow) }
        else if m == 0xFF98 { Some(Key::RightArrow) }
        else if m == 0xFF99 { Some(Key::DownArrow) }
        else if m == 0xFF9A { Some(Key::PageUp) }
        else if m == 0xFF9B { Some(Key::PageDown) }
        else if m == 0xFF9C { Some(Key::End) }
        else if m == 0xFF9D { Some(Key::Home) }
        else if m == 0xFF9E { Some(Key::Insert) }
        else if m == 0xFF9F { Some(Key::Delete) }
        else if m == 0xFFAA { Some(Key::KeypadMultiply) }
        else if m == 0xFFAB { Some(Key::KeypadAdd) }
        else if m == 0xFFAC { Some(Key::KeypadSeparator) }
        else if m == 0xFFAD { Some(Key::KeypadSubtract) }
        else if m == 0xFFAE { Some(Key::KeypadDecimal) }
        else if m == 0xFFAF { Some(Key::KeypadDivide) }
        else { None }
    }
}

/// The key for keysym `k`, which the server reports for the key without
/// modifiers, and `m`, the keysym under the modifiers in effect.
pub open spec fn keysym_key(k: int, m: int) -> Option<Key> {
    if punctuation_key(k) is Some { punctuation_key(k) }
    else if 0x30 <= k <= 0x39 { Some(digit_key(k - 0x30)) }
    else if 0x61 <= k <= 0x7A { Some(letter_key(k - 0x61)) }
    else if 0xFFBE <= k <= 0xFFD5 { Some(function_key(k - 0xFFBE)) }
    else if 0xFF80 <= k <= 0xFFB9 { keypad_keysym_key(m) }
    else { special_keysym_key(k) }
}

fn keypad_keysym_to_key(m: u64) -> (r: Option<Key>)
    ensures
        r == keypad_keysym_key(m as int),
{
    match m {
        0xFF91..=0xFF94 => Some(function((m - 0xFF91) as u32)),
        0xFFB0..=0xFFB9 => Some(keypad_digit((m - 0xFFB0) as u32)),
        0xFF80 => Some(Key::Space),
        0xFF89 => Some(Key::Tab),
        0xFF8D => Some(Key::Return),
        0xFF95 => Some(Key::Home),
        0xFF96 => Some(Key::LeftArrow),
        0xFF97 => Some(Key::UpArrow),
        0xFF98 => Some(Key::RightArrow),
        0xFF99 => Some(Key::DownArrow),
        0xFF9A => Some(Key::PageUp),
        0xFF9B => Some(Key::PageDown),
        0xFF9C => Some(Key::End),
        0xFF9D => Some(Key::Home),
        0xFF9E => Some(Key::Insert),
        0xFF9F => Some(Key::Delete),
        0xFFAA => Some(Key::KeypadMultiply),
        0xFFAB => Some(Key::KeypadAdd),
        0xFFAC => Some(Key::KeypadSeparator),
        0xFFAD => Some(Key::KeypadSubtract),
        0xFFAE => Some(Key::KeypadDecimal),
        0xFFAF => Some(Key::KeypadDivide),
        _ => None,
    }
}

/// Maps the unmodified keysym `keysym` of a key event, and `modified`, its
/// keysym under the modifiers in effect, to a key. The keypad is mapped by
/// the modified keysym, every other key by the unmodified one.
pub fn keysym_to_key(keysym: u64, modified: u64) -> (r: Option<Key>)
    ensures
        r == keysym_key(keysym as int, modified as int),
{
    if keysym < 0x80 {
        let p = punctuation_to_key(keysym as u32);
        if p.is_some() {
            return p;
        }
    }
    match keysym {
        0x30..=0x39 => Some(digit((keysym - 0x30) as u32)),
        0x61..=0x7A => Some(letter((keysym - 0x61) as u32)),
        0xFFBE..=0xFFD5 => Some(function((keysym - 0xFFBE) as u32)),
        0xFF80..=0xFFB9 => keypad_keysym_to_key(modified),
        0xFF08 => Some(Key::Backspace),
        0xFF09 => Some(Key::Tab),
        0xFF0D => Some(Key::Return),
        0xFF13 => Some(Key::Pause),
        0xFF14 => Some(Key::ScrollLock),
        0xFF1B => Some(Key::Escape),
        0xFF50 => Some(Key::Home),
        0xFF51 => Some(Key::LeftArrow),
        0xFF52 => Some(Key::UpArrow),
        0xFF53 => Some(Key::RightArrow),
        0xFF54 => Some(Key::DownArrow),
        0xFF55 => Some(Key::PageUp),
        0xFF56 => Some(Key::PageDown),
        0xFF57 => Some(Key::End),
        0xFF58 => Some(Key::Home),
        0xFF63 => Some(Key::Insert),
        0xFF7F => Some(Key::NumLock),
        0xFFE1 => Some(Key::LeftShift),
        0xFFE2 => Some(Key::RightShift),
        0xFFE3 => Some(Key::LeftControl),
        0xFFE4 => Some(Key::RightControl),
        0xFFE5 => Some(Key::CapsLock),
        0xFFE9 => Some(Key::LeftAlt),
        0xFFEA => Some(Key::RightAlt),
        0xFFEB => Some(Key::LeftSuper),
        0xFFEC => Some(Key::RightSuper),
        0xFFFF => Some(Key::Delete),
        _ => None,
    }
}

} // verus!
