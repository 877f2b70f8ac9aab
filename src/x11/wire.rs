use vstd::prelude::*;

verus! {

/// Core event codes of the X protocol.
pub const FOCUS_IN: u8 = 9;
pub const FOCUS_OUT: u8 = 10;
pub const UNMAP_NOTIFY: u8 = 18;
pub const MAP_NOTIFY: u8 = 19;
pub const REPARENT_NOTIFY: u8 = 21;
pub const CONFIGURE_NOTIFY: u8 = 22;
pub const PROPERTY_NOTIFY: u8 = 28;
pub const CLIENT_MESSAGE: u8 = 33;
pub const GENERIC_EVENT: u8 = 35;

/// Event types of the input extension, carried in generic events.
pub const XI_KEY_PRESS: u16 = 2;
pub const XI_KEY_RELEASE: u16 = 3;
pub const XI_BUTTON_PRESS: u16 = 4;
pub const XI_BUTTON_RELEASE: u16 = 5;
pub const XI_MOTION: u16 = 6;
pub const XI_ENTER: u16 = 7;
pub const XI_LEAVE: u16 = 8;
pub const XI_FOCUS_IN: u16 = 9;
pub const XI_FOCUS_OUT: u16 = 10;

/// Length of a core event record as the client library hands it over: the
/// 32 bytes of the wire plus the widened sequence number.
pub const CORE_EVENT_LEN: usize = 36;
/// Length that a device (key, button, motion) event of the input extension
/// needs to hold the fields read from it.
pub const DEVICE_EVENT_LEN: usize = 80;

/// One native notification, decoded from its record. Records are read in the
/// layout of the client library (the wire layout, with a 32-bit sequence
/// number inserted after the first 32 bytes of a generic event), in
/// little-endian byte order.
#[derive(Clone, Copy, Debug, PartialEq, Eq)]
pub enum Notification {
    /// A client message; `data` holds its twenty data bytes as five words.
    ClientMessage { window: u32, format: u8, message_type: u32, data: [u32; 5] },
    /// Core focus change.
    Focus { window: u32, focused: bool },
    Mapped { window: u32 },
    Unmapped { window: u32 },
    Reparent { window: u32, parent: u32 },
    /// `synthetic` marks a record sent by another client, whose coordinates
    /// are already relative to the root.
    Configure { window: u32, x: i16, y: i16, width: u16, height: u16, synthetic: bool },
    /// `state` is 0 for a new value and 1 for a deleted property.
    Property { window: u32, atom: u32, state: u8 },
    Key { window: u32, pressed: bool, repeat: bool, keycode: u32, modifiers: u32 },
    Button { window: u32, pressed: bool, button: u32 },
    /// Pointer position: the integer parts of the fixed-point coordinates.
    Motion { window: u32, pointer_x: u16, pointer_y: u16 },
    Enter { window: u32 },
    Leave { window: u32 },
    /// Focus change reported by the input extension.
    InputFocus { window: u32, focused: bool },
    /// Anything else: such records are dropped.
    Other,
}

/// The unsigned 16-bit integer at `at`, little-endian.
pub open spec fn le16(b: Seq<u8>, at: int) -> int {
    b[at] + b[at + 1] * 256
}

/// The unsigned 32-bit integer at `at`, little-endian.
pub open spec fn le32(b: Seq<u8>, at: int) -> int {
    b[at] + b[at + 1] * 256 + b[at + 2] * 65536 + b[at + 3] * 16777216
}

/// The two's-complement 16-bit integer at `at`, little-endian.
pub open spec fn le16_signed(b: Seq<u8>, at: int) -> int {
    if le16(b, at) < 32768 { le16(b, at) } else { le16(b, at) - 65536 }
}

fn read16(b: &[u8], at: usize) -> (r: u16)
    requires
        at + 2 <= b@.len(),
    ensures
        r == le16(b@, at as int),
{
    b[at] as u16 + (b[at + 1] as u16) * 256
}

fn read32(b: &[u8], at: usize) -> (r: u32)
    requires
        at + 4 <= b@.len(),
    ensures
        r == le32(b@, at as int),
{
    b[at] as u32 + (b[at + 1] as u32) * 256 + (b[at + 2] as u32) * 65536 + (b[at + 3] as u32) * 16777216
}

fn read16_signed(b: &[u8], at: usize) -> (r: i16)
    requires
        at + 2 <= b@.len(),
    ensures
        r == le16_signed(b@, at as int),
{
    let v = read16(b, at);
    if v < 32768 {
        v as i16
    } else {
        (v as i32 - 65536) as i16
    }
}

/// The event code of a record, without the bit that marks a sent event.
pub open spec fn code_of(b: Seq<u8>) -> int {
    (b[0] as int) % 128
}

/// The event type of a generic event, without its top bit of the low byte.
pub open spec fn generic_type_of(b: Seq<u8>) -> int {
    let t = le16(b, 8);
    if (t / 128) % 2 == 1 { t - 128 } else { t }
}

/// The notification that record `b` holds, given the opcode of the input
/// extension if it is present.
pub open spec fn decoded(b: Seq<u8>, xinput: Option<u8>) -> Notification {
    if b.len() < CORE_EVENT_LEN {
        Notification::Other
    } else {
        let code = code_of(b);
        if code == CLIENT_MESSAGE {
            Notification::ClientMessage {
                window: le32(b, 4) as u32,
                format: b[1],
                message_type: le32(b, 8) as u32,
                data: [
                    le32(b, 12) as u32,
                    le32(b, 16) as u32,
                    le32(b, 20) as u32,
                    le32(b, 24) as u32,
                    le32(b, 28) as u32,
                ],
            }
        } else if code == FOCUS_IN || code == FOCUS_OUT {
            Notification::Focus { window: le32(b, 4) as u32, focused: code == FOCUS_IN }
        } else if code == MAP_NOTIFY {
            Notification::Mapped { window: le32(b, 8) as u32 }
        } else if code == UNMAP_NOTIFY {
            Notification::Unmapped { window: le32(b, 8) as u32 }
        } else if code == REPARENT_NOTIFY {
            Notification::Reparent { window: le32(b, 8) as u32, parent: le32(b, 12) as u32 }
        } else if code == CONFIGURE_NOTIFY {
            Notification::Configure {
                window: le32(b, 8) as u32,
                x: le16_signed(b, 16) as i16,
                y: le16_signed(b, 18) as i16,
                width: le16(b, 20) as u16,
                height: le16(b, 22) as u16,
                synthetic: b[0] >= 128,
            }
        } else if code == PROPERTY_NOTIFY {
            Notification::Property { window: le32(b, 4) as u32, atom: le32(b, 8) as u32, state: b[16] }
        } else if code == GENERIC_EVENT && xinput == Some(b[1]) {
            decoded_input(b)
        } else {
            Notification::Other
        }
    }
}

/// The notification that a generic event of the input extension holds.
pub open spec fn decoded_input(b: Seq<u8>) -> Notification {
    let t = generic_type_of(b);
    let window = le32(b, 24) as u32;
    if t == XI_ENTER {
        Notification::Enter { window }
    } else if t == XI_LEAVE {
        Notification::Leave { window }
    } else if t == XI_FOCUS_IN || t == XI_FOCUS_OUT {
        Notification::InputFocus { window, focused: t == XI_FOCUS_IN }
    } else if b.len() < DEVICE_EVENT_LEN {
        Notification::Other
    } else if t == XI_KEY_PRESS || t == XI_KEY_RELEASE {
        Notification::Key {
            window,
            pressed: t == XI_KEY_PRESS,
            repeat: b[62] % 2 == 1,
            keycode: le32(b, 16) as u32,
            modifiers: le32(b, 76) as u32,
        }
    } else if t == XI_BUTTON_PRESS || t == XI_BUTTON_RELEASE {
        Notification::Button { window, pressed: t == XI_BUTTON_PRESS, button: le32(b, 16) as u32 }
    } else if t == XI_MOTION {
        Notification::Motion { window, pointer_x: le16(b, 46) as u16, pointer_y: le16(b, 50) as u16 }
    } else {
        Notification::Other
    }
}

/// Decodes one event record.
pub fn decode(b: &[u8], xinput: Option<u8>) -> (r: Notification)
    ensures
        r == decoded(b@, xinput),
{
    if b.len() < CORE_EVENT_LEN {
        return Notification::Other;
    }
    let code = b[0] % 128;
    if code == CLIENT_MESSAGE {
        Notification::ClientMessage {
            window: read32(b, 4),
            format: b[1],
            message_type: read32(b, 8),
            data: [read32(b, 12), read32(b, 16), read32(b, 20), read32(b, 24), read32(b, 28)],
        }
    } else if code == FOCUS_IN || code == FOCUS_OUT {
        Notification::Focus { window: read32(b, 4), focused: code == FOCUS_IN }
    } else if code == MAP_NOTIFY {
        Notification::Mapped { window: read32(b, 8) }
    } else if code == UNMAP_NOTIFY {
        Notification::Unmapped { window: read32(b, 8) }
    } else if code == REPARENT_NOTIFY {
        Notification::Reparent { window: read32(b, 8), parent: read32(b, 12) }
    } else if code == CONFIGURE_NOTIFY {
        Notification::Configure {
            window: read32(b, 8),
            x: read16_signed(b, 16),
            y: read16_signed(b, 18),
            width: read16(b, 20),
            height: read16(b, 22),
            synthetic: b[0] >= 128,
        }
    } else if code == PROPERTY_NOTIFY {
        Notification::Property { window: read32(b, 4), atom: read32(b, 8), state: b[16] }
    } else if code == GENERIC_EVENT && xinput == Some(b[1]) {
        decode_input(b)
    } else {
        Notification::Other
    }
}

fn decode_input(b: &[u8]) -> (r: Notification)
    requires
        b@.len() >= CORE_EVENT_LEN,
    ensures
        r == decoded_input(b@),
{
    let raw = read16(b, 8);
    let t = if (raw / 128) % 2 == 1 { raw - 128 } else { raw };
    let window = read32(b, 24);
    if t == XI_ENTER {
        Notification::Enter { window }
    } else if t == XI_LEAVE {
        Notification::Leave { window }
    } else if t == XI_FOCUS_IN || t == XI_FOCUS_OUT {
        Notification::InputFocus { window, focused: t == XI_FOCUS_IN }
    } else if b.len() < DEVICE_EVENT_LEN {
        Notification::Other
    } else if t == XI_KEY_PRESS || t == XI_KEY_RELEASE {
        Notification::Key {
            window,
            pressed: t == XI_KEY_PRESS,
            repeat: b[62] % 2 == 1,
            keycode: read32(b, 16),
            modifiers: read32(b, 76),
        }
    } else if t == XI_BUTTON_PRESS || t == XI_BUTTON_RELEASE {
        Notification::Button { window, pressed: t == XI_BUTTON_PRESS, button: read32(b, 16) }
    } else if t == XI_MOTION {
        Notification::Motion { window, pointer_x: read16(b, 46), pointer_y: read16(b, 50) }
    } else {
        Notification::Other
    }
}

/// The window a notification is addressed to; `None` for one that is dropped.
pub open spec fn target_of(n: Notification) -> Option<u32> {
    match n {
        Notification::ClientMessage { window, .. } => Some(window),
        Notification::Focus { window, .. } => Some(window),
        Notification::Mapped { window } => Some(window),
        Notification::Unmapped { window } => Some(window),
        Notification::Reparent { window, .. } => Some(window),
        Notification::Configure { window, .. } => Some(window),
        Notification::Property { window, .. } => Some(window),
        Notification::Key { window, .. } => Some(window),
        Notification::Button { window, .. } => Some(window),
        Notification::Motion { window, .. } => Some(window),
        Notification::Enter { window } => Some(window),
        Notification::Leave { window } => Some(window),
        Notification::InputFocus { window, .. } => Some(window),
        Notification::Other => None,
    }
}

impl Notification {
    /// The window this notification is addressed to, if any.
    pub fn target(&self) -> (r: Option<u32>)
        ensures
            r == target_of(*self),
    {
        match *self {
            Notification::ClientMessage { window, .. } => Some(window),
            Notification::Focus { window, .. } => Some(window),
            Notification::Mapped { window } => Some(window),
            Notification::Unmapped { window } => Some(window),
            Notification::Reparent { window, .. } => Some(window),
            Notification::Configure { window, .. } => Some(window),
            Notification::Property { window, .. } => Some(window),
            Notification::Key { window, .. } => Some(window),
            Notification::Button { window, .. } => Some(window),
            Notification::Motion { window, .. } => Some(window),
            Notification::Enter { window } => Some(window),
            Notification::Leave { window } => Some(window),
            Notification::InputFocus { window, .. } => Some(window),
            Notification::Other => None,
        }
    }
}

/// The bytes of `v`, little-endian.
pub open spec fn le32_bytes(v: u32) -> Seq<u8> {
    seq![(v % 256) as u8, ((v / 256) % 256) as u8, ((v / 65536) % 256) as u8, (v / 16777216) as u8]
}

/// Reading back the four bytes of a word gives the word.
pub proof fn lemma_le32_bytes(v: u32)
    ensures
        le32(le32_bytes(v), 0) == v,
{
    let b = le32_bytes(v);
    assert(b[0] == v % 256);
    assert(b[1] == (v / 256) % 256);
    assert(b[2] == (v / 65536) % 256);
    assert(b[3] == v / 16777216);
    assert((v as int) == (v as int) % 256 + 256 * (((v as int) / 256) % 256) + 65536 * (((v as int) / 65536) % 256)
        + 16777216 * ((v as int) / 16777216)) by (nonlinear_arith)
        requires
            0 <= v < 0x1_0000_0000,
    {
        let x = v as int;
        assert(x == 256 * (x / 256) + x % 256);
        assert(x / 256 == 256 * (x / 65536) + (x / 256) % 256);
        assert(x / 65536 == 256 * (x / 16777216) + (x / 65536) % 256);
    }
}

/// The 32-byte wire record of a client message of format 32.
pub open spec fn client_message_bytes(window: u32, message_type: u32, data: Seq<u32>) -> Seq<u8> {
    seq![CLIENT_MESSAGE, 32u8, 0u8, 0u8] + le32_bytes(window) + le32_bytes(message_type)
        + le32_bytes(data[0]) + le32_bytes(data[1]) + le32_bytes(data[2]) + le32_bytes(data[3])
        + le32_bytes(data[4])
}

fn push32(out: &mut Vec<u8>, v: u32)
    ensures
        final(out)@ == old(out)@ + le32_bytes(v),
{
    out.push((v % 256) as u8);
    out.push(((v / 256) % 256) as u8);
    out.push(((v / 65536) % 256) as u8);
    out.push((v / 16777216) as u8);
    assert(final(out)@ =~= old(out)@ + le32_bytes(v));
}

/// Encodes a client message of format 32 for sending.
pub fn encode_client_message(window: u32, message_type: u32, data: [u32; 5]) -> (r: Vec<u8>)
    ensures
        r@ == client_message_bytes(window, message_type, data@),
        r@.len() == 32,
{
    let mut out: Vec<u8> = Vec::new();
    out.push(CLIENT_MESSAGE);
    out.push(32u8);
    out.push(0u8);
    out.push(0u8);
    push32(&mut out, window);
    push32(&mut out, message_type);
    push32(&mut out, data[0]);
    push32(&mut out, data[1]);
    push32(&mut out, data[2]);
    push32(&mut out, data[3]);
    push32(&mut out, data[4]);
    assert(out@ =~= client_message_bytes(window, message_type, data@));
    out
}

} // verus!
