use vstd::prelude::*;
use crate::chars::{char_from_u32, is_scalar};
use crate::event::{CloseReason, Event};
use crate::input::MouseButton;
use crate::x11::state::replay;
use crate::win32::keys::{
    VK_F4, alt_down, extend_key, extended_key, key_transition, map_tr_state, sys_key, sys_key_event,
    translate_vk, vk_key, was_down,
};

verus! {

/// Window messages that the translator handles.
pub const WM_NULL: u32 = 0x0000;
pub const WM_DESTROY: u32 = 0x0002;
pub const WM_MOVE: u32 = 0x0003;
pub const WM_SIZE: u32 = 0x0005;
pub const WM_ACTIVATE: u32 = 0x0006;
pub const WM_SETFOCUS: u32 = 0x0007;
pub const WM_KILLFOCUS: u32 = 0x0008;
pub const WM_CLOSE: u32 = 0x0010;
pub const WM_SHOWWINDOW: u32 = 0x0018;
pub const WM_KEYDOWN: u32 = 0x0100;
pub const WM_KEYUP: u32 = 0x0101;
pub const WM_CHAR: u32 = 0x0102;
pub const WM_SYSKEYDOWN: u32 = 0x0104;
pub const WM_SYSKEYUP: u32 = 0x0105;
pub const WM_UNICHAR: u32 = 0x0109;
pub const WM_SYSCOMMAND: u32 = 0x0112;
pub const WM_MOUSEMOVE: u32 = 0x0200;
pub const WM_LBUTTONDOWN: u32 = 0x0201;
pub const WM_LBUTTONUP: u32 = 0x0202;
pub const WM_RBUTTONDOWN: u32 = 0x0204;
pub const WM_RBUTTONUP: u32 = 0x0205;
pub const WM_MBUTTONDOWN: u32 = 0x0207;
pub const WM_MBUTTONUP: u32 = 0x0208;
pub const WM_MOUSELEAVE: u32 = 0x02A3;

/// Kinds of size change.
pub const SIZE_RESTORED: u32 = 0;
pub const SIZE_MINIMIZED: u32 = 1;
pub const SIZE_MAXIMIZED: u32 = 2;

/// The system command of the close menu item, without its low four bits.
pub const SC_CLOSE_GROUP: u32 = 0xF06;

/// The coordinate the system reports for a minimised window.
pub const MINIMISED_COORD: i16 = -32000;

/// `WM_UNICHAR`'s probe for support, which carries no character.
pub const UNICODE_NOCHAR: u32 = 0xFFFF;

/// A window's translation state on this backend: what it last reported of
/// the window, and a high surrogate waiting for its low half.
#[derive(Clone, Copy, Debug, PartialEq, Eq)]
pub struct MessageState {
    pub position: (i16, i16),
    pub size: (u16, u16),
    pub is_max: bool,
    pub is_min: bool,
    pub mouse_tracked: bool,
    pub high_surrogate: Option<u16>,
}

impl MessageState {
    /// The state of a window just created at `position` with `size`.
    pub fn new(position: (i16, i16), size: (u16, u16)) -> (r: MessageState)
        ensures
            r == (MessageState { position, size, is_max: false, is_min: false, mouse_tracked: false, high_surrogate: None }),
    {
        MessageState { position, size, is_max: false, is_min: false, mouse_tracked: false, high_surrogate: None }
    }
}

/// What the window procedure returns for a message.
#[derive(Clone, Copy, Debug, PartialEq, Eq, Structural)]
pub enum Reply {
    /// The message was handled; return this value.
    Handled(i32),
    /// Leave the message to the system's default processing.
    Default,
}

/// The translation of one message.
#[derive(Clone, Debug)]
pub struct Outcome {
    /// Events for the window's back buffer, in order.
    pub events: Vec<Event>,
    /// Whether to ask the system to report when the mouse leaves.
    pub track_mouse: bool,
    pub reply: Reply,
}

/// The low 16 bits of a message parameter.
pub open spec fn low_word(v: u32) -> int {
    (v % 65536) as int
}

/// The high 16 bits of a message parameter.
pub open spec fn high_word(v: u32) -> int {
    (v / 65536) as int
}

/// A 16-bit word read as two's complement.
pub open spec fn signed_word(w: int) -> int {
    if w < 32768 { w } else { w - 65536 }
}

/// The events that report the change from (`old_max`, `old_min`) to
/// (`new_max`, `new_min`): un-maximising before minimising, un-minimising
/// before maximising.
pub open spec fn max_min_events(old_max: bool, old_min: bool, new_max: bool, new_min: bool) -> Seq<Event> {
    (if old_max && !new_max { seq![Event::Maximise(false)] } else { seq![] })
    + (if old_min != new_min { seq![Event::Minimise(new_min)] } else { seq![] })
    + (if !old_max && new_max { seq![Event::Maximise(true)] } else { seq![] })
}

/// Replaying the events of a change from (`old_max`, `old_min`) to
/// (`new_max`, `new_min`) gives the new state, and at no point in between is
/// the window seen maximised and minimised at once.
pub proof fn lemma_max_min_events_track_state(old_max: bool, old_min: bool, new_max: bool, new_min: bool)
    requires
        !(old_max && old_min),
        !(new_max && new_min),
    ensures
        replay(old_max, old_min, max_min_events(old_max, old_min, new_max, new_min)) == (new_max, new_min),
        forall|k: int| 0 <= k <= max_min_events(old_max, old_min, new_max, new_min).len() ==> {
            let seen = #[trigger] replay(old_max, old_min, max_min_events(old_max, old_min, new_max, new_min).take(k));
            !(seen.0 && seen.1)
        },
{
    let evs = max_min_events(old_max, old_min, new_max, new_min);
    reveal_with_fuel(replay, 4);
    assert forall|k: int| 0 <= k <= evs.len() implies {
        let seen = #[trigger] replay(old_max, old_min, evs.take(k));
        !(seen.0 && seen.1)
    } by {
        let t = evs.take(k);
        if k >= 1 {
            assert(t.drop_first() =~= evs.drop_first().take(k - 1));
        }
        if k >= 2 {
            assert(t.drop_first().drop_first() =~= evs.drop_first().drop_first().take(k - 2));
        }
        if k == 0 {
            assert(t =~= Seq::<Event>::empty());
        }
    }
}

/// Events and state after a size message of kind `kind` and size word `l`.
/// A minimised window reports no meaningful size, so its size is kept.
pub open spec fn sized(s: MessageState, kind: u32, l: u32) -> (Seq<Event>, MessageState) {
    let wh = (low_word(l) as u16, high_word(l) as u16);
    let resize = if kind != SIZE_MINIMIZED && s.size != wh { seq![Event::Resize(wh)] } else { seq![] };
    let size = if kind != SIZE_MINIMIZED { wh } else { s.size };
    let (max, min) = if kind == SIZE_RESTORED {
        (false, false)
    } else if kind == SIZE_MINIMIZED {
        (false, true)
    } else if kind == SIZE_MAXIMIZED {
        (true, false)
    } else {
        (s.is_max, s.is_min)
    };
    (resize + max_min_events(s.is_max, s.is_min, max, min), MessageState { size, is_max: max, is_min: min, ..s })
}

/// Events and state after a move message with position word `l`; the
/// position the system gives a minimised window is not a move.
pub open spec fn moved(s: MessageState, l: u32) -> (Seq<Event>, MessageState) {
    let xy = (signed_word(low_word(l)) as i16, signed_word(high_word(l)) as i16);
    if xy.0 == MINIMISED_COORD || xy.1 == MINIMISED_COORD || xy == s.position {
        (seq![], s)
    } else {
        (seq![Event::Move(xy)], MessageState { position: xy, ..s })
    }
}

/// Events and state after a character message carrying UTF-16 unit `w`: a
/// high surrogate waits for the low one that completes it, a low surrogate
/// without its high half is dropped, and a null character is suppressed.
pub open spec fn typed(s: MessageState, w: u32) -> (Seq<Event>, MessageState) {
    let unit = low_word(w);
    if 0xD800 <= unit <= 0xDBFF {
        (seq![], MessageState { high_surrogate: Some(unit as u16), ..s })
    } else if 0xDC00 <= unit <= 0xDFFF {
        match s.high_surrogate {
            Some(h) => if 0xD800 <= h <= 0xDBFF {
                let cp = 0x10000 + (h - 0xD800) * 1024 + (unit - 0xDC00);
                (seq![Event::Input(cp as u32 as char)], MessageState { high_surrogate: None, ..s })
            } else {
                (seq![], MessageState { high_surrogate: None, ..s })
            },
            None => (seq![], s),
        }
    } else if unit == 0 {
        (seq![], MessageState { high_surrogate: None, ..s })
    } else {
        (seq![Event::Input(unit as u32 as char)], MessageState { high_surrogate: None, ..s })
    }
}

/// The events of a key message.
pub open spec fn key_message(w: u32, l: u32, layout_char: u32) -> Seq<Event> {
    match vk_key((w % 256) as int, layout_char as int) {
        Some(k) => seq![key_transition(extended_key(k, l), l)],
        None => seq![],
    }
}

/// The events of a system key message: Alt+F4 asks to close the window,
/// ahead of the key event itself.
pub open spec fn sys_key_message(msg: u32, w: u32, l: u32, layout_char: u32) -> Seq<Event> {
    let vk = (w % 256) as int;
    let close = if msg == WM_SYSKEYDOWN && vk == VK_F4 && alt_down(l) && !was_down(l) {
        seq![Event::CloseRequest(CloseReason::KeyboardShortcut)]
    } else {
        seq![]
    };
    match sys_key(vk, l, layout_char as int) {
        Some(e) => close.push(e),
        None => close,
    }
}

/// The button a mouse button message is about.
pub open spec fn message_button(msg: u32) -> MouseButton {
    if msg == WM_LBUTTONDOWN || msg == WM_LBUTTONUP { MouseButton::Left }
    else if msg == WM_RBUTTONDOWN || msg == WM_RBUTTONUP { MouseButton::Right }
    else { MouseButton::Middle }
}

/// Whether `msg` is a mouse button message.
pub open spec fn is_button_message(msg: u32) -> bool {
    msg == WM_LBUTTONDOWN || msg == WM_LBUTTONUP || msg == WM_RBUTTONDOWN || msg == WM_RBUTTONUP
        || msg == WM_MBUTTONDOWN || msg == WM_MBUTTONUP
}

/// The translation of message `msg` with parameters `w` and `l` (their low
/// 32 bits) for a window in state `s`: its events, the new state, whether
/// to track the mouse leaving, and the reply. `layout_char` is the
/// character of the key in a key message, for OEM keys.
pub open spec fn translation(s: MessageState, msg: u32, w: u32, l: u32, layout_char: u32) -> (Seq<Event>, MessageState, bool, Reply) {
    if msg == WM_MOVE {
        let (e, t) = moved(s, l);
        (e, t, false, Reply::Handled(0))
    } else if msg == WM_SIZE {
        let (e, t) = sized(s, w, l);
        (e, t, false, Reply::Handled(0))
    } else if msg == WM_SETFOCUS || msg == WM_KILLFOCUS {
        (seq![Event::Focus(msg == WM_SETFOCUS)], s, false, Reply::Handled(0))
    } else if msg == WM_SHOWWINDOW {
        (if l == 0 { seq![Event::Visible(w != 0)] } else { seq![] }, s, false, Reply::Handled(0))
    } else if msg == WM_CLOSE {
        (seq![Event::CloseRequest(CloseReason::Unknown)], s, false, Reply::Handled(0))
    } else if msg == WM_SYSCOMMAND {
        if w / 16 == SC_CLOSE_GROUP {
            (seq![Event::CloseRequest(CloseReason::SystemMenu)], s, false, Reply::Handled(0))
        } else {
            (seq![], s, false, Reply::Default)
        }
    } else if msg == WM_KEYDOWN || msg == WM_KEYUP {
        (key_message(w, l, layout_char), s, false, Reply::Handled(0))
    } else if msg == WM_SYSKEYDOWN || msg == WM_SYSKEYUP {
        (sys_key_message(msg, w, l, layout_char), s, false, Reply::Handled(0))
    } else if msg == WM_CHAR {
        let (e, t) = typed(s, w);
        (e, t, false, Reply::Handled(0))
    } else if msg == WM_UNICHAR {
        if w == UNICODE_NOCHAR {
            (seq![], s, false, Reply::Handled(1))
        } else if w != 0 && is_scalar(w) {
            (seq![Event::Input(w as char)], s, false, Reply::Handled(0))
        } else {
            (seq![], s, false, Reply::Handled(0))
        }
    } else if msg == WM_MOUSEMOVE {
        let mv = Event::MouseMove((low_word(l) as u16, high_word(l) as u16));
        if s.mouse_tracked {
            (seq![mv], s, false, Reply::Handled(0))
        } else {
            (seq![Event::MouseEnter, mv], MessageState { mouse_tracked: true, ..s }, true, Reply::Handled(0))
        }
    } else if msg == WM_MOUSELEAVE {
        (seq![Event::MouseLeave], MessageState { mouse_tracked: false, ..s }, false, Reply::Handled(0))
    } else if is_button_message(msg) {
        let b = message_button(msg);
        let down = msg == WM_LBUTTONDOWN || msg == WM_RBUTTONDOWN || msg == WM_MBUTTONDOWN;
        (seq![if down { Event::MouseDown(b) } else { Event::MouseUp(b) }], s, false, Reply::Handled(0))
    } else if msg == WM_NULL || msg == WM_DESTROY || msg == WM_ACTIVATE {
        (seq![], s, false, Reply::Handled(0))
    } else {
        (seq![], s, false, Reply::Default)
    }
}

fn signed_word_of(v: u32) -> (r: i16)
    requires
        v < 65536,
    ensures
        r == signed_word(v as int),
{
    if v < 32768 { v as i16 } else { (v as i32 - 65536) as i16 }
}

fn push_max_min(events: &mut Vec<Event>, old_max: bool, old_min: bool, new_max: bool, new_min: bool)
    ensures
        final(events)@ == old(events)@ + max_min_events(old_max, old_min, new_max, new_min),
{
    if old_max && !new_max {
        events.push(Event::Maximise(false));
    }
    if old_min != new_min {
        events.push(Event::Minimise(new_min));
    }
    if !old_max && new_max {
        events.push(Event::Maximise(true));
    }
    assert(final(events)@ =~= old(events)@ + max_min_events(old_max, old_min, new_max, new_min));
}

fn on_size(state: &mut MessageState, kind: u32, l: u32) -> (r: Vec<Event>)
    ensures
        (r@, *final(state)) == sized(*old(state), kind, l),
{
    let w = (l % 65536) as u16;
    let h = (l / 65536) as u16;
    let mut events: Vec<Event> = Vec::new();
    if kind != SIZE_MINIMIZED {
        if state.size.0 != w || state.size.1 != h {
            events.push(Event::Resize((w, h)));
        }
        state.size = (w, h);
    }
    let (max, min) = if kind == SIZE_RESTORED {
        (false, false)
    } else if kind == SIZE_MINIMIZED {
        (false, true)
    } else if kind == SIZE_MAXIMIZED {
        (true, false)
    } else {
        (state.is_max, state.is_min)
    };
    push_max_min(&mut events, state.is_max, state.is_min, max, min);
    state.is_max = max;
    state.is_min = min;
    proof {
        let (e, t) = sized(*old(state), kind, l);
        assert(events@ =~= e);
    }
    events
}

fn on_char(state: &mut MessageState, w: u32) -> (r: Vec<Event>)
    ensures
        (r@, *final(state)) == typed(*old(state), w),
{
    let unit = w % 65536;
    let mut events: Vec<Event> = Vec::new();
    if 0xD800 <= unit && unit <= 0xDBFF {
        state.high_surrogate = Some(unit as u16);
    } else if 0xDC00 <= unit && unit <= 0xDFFF {
        if let Some(h) = state.high_surrogate {
            if 0xD800 <= h && h <= 0xDBFF {
                let cp: u32 = 0x10000 + (h as u32 - 0xD800) * 1024 + (unit - 0xDC00);
                assert(is_scalar(cp));
                if let Some(c) = char_from_u32(cp) {
                    events.push(Event::Input(c));
                }
            }
            state.high_surrogate = None;
        }
    } else {
        state.high_surrogate = None;
        if unit != 0 {
            assert(is_scalar(unit));
            if let Some(c) = char_from_u32(unit) {
                events.push(Event::Input(c));
            }
        }
    }
    proof {
        let (e, t) = typed(*old(state), w);
        assert(events@ =~= e);
    }
    events
}

/// Translates one window message for a window in `state`, updating it.
/// `w` and `l` are the low 32 bits of the message parameters;
/// `layout_char` is the character the keyboard layout gives the key of a
/// key message, needed only when `needs_layout_char` holds of its key.
pub fn translate_message(state: &mut MessageState, msg: u32, w: u32, l: u32, layout_char: u32) -> (r: Outcome)
    ensures
        (r.events@, *final(state), r.track_mouse, r.reply) == translation(*old(state), msg, w, l, layout_char),
{
    let mut events: Vec<Event> = Vec::new();
    let mut track_mouse = false;
    let mut reply = Reply::Handled(0);
    if msg == WM_MOVE {
        let x = signed_word_of(l % 65536);
        let y = signed_word_of(l / 65536);
        if x != MINIMISED_COORD && y != MINIMISED_COORD && (x != state.position.0 || y != state.position.1) {
            state.position = (x, y);
            events.push(Event::Move((x, y)));
        }
    } else if msg == WM_SIZE {
        events = on_size(state, w, l);
    } else if msg == WM_SETFOCUS || msg == WM_KILLFOCUS {
        events.push(Event::Focus(msg == WM_SETFOCUS));
    } else if msg == WM_SHOWWINDOW {
        if l == 0 {
            events.push(Event::Visible(w != 0));
        }
    } else if msg == WM_CLOSE {
        events.push(Event::CloseRequest(CloseReason::Unknown));
    } else if msg == WM_SYSCOMMAND {
        if w / 16 == SC_CLOSE_GROUP {
            events.push(Event::CloseRequest(CloseReason::SystemMenu));
        } else {
            reply = Reply::Default;
        }
    } else if msg == WM_KEYDOWN || msg == WM_KEYUP {
        if let Some(k) = translate_vk((w % 256) as u8, layout_char) {
            events.push(map_tr_state(extend_key(k, l), l));
        }
    } else if msg == WM_SYSKEYDOWN || msg == WM_SYSKEYUP {
        let vk = (w % 256) as u8;
        if msg == WM_SYSKEYDOWN && vk as u32 == VK_F4 && (l / 536870912) % 2 == 1 && (l / 1073741824) % 2 == 0 {
            events.push(Event::CloseRequest(CloseReason::KeyboardShortcut));
        }
        if let Some(e) = sys_key_event(vk, l, layout_char) {
            events.push(e);
        }
    } else if msg == WM_CHAR {
        events = on_char(state, w);
    } else if msg == WM_UNICHAR {
        if w == UNICODE_NOCHAR {
            reply = Reply::Handled(1);
        } else if w != 0 {
            if let Some(c) = char_from_u32(w) {
                events.push(Event::Input(c));
            }
        }
    } else if msg == WM_MOUSEMOVE {
        if !state.mouse_tracked {
            state.mouse_tracked = true;
            track_mouse = true;
            events.push(Event::MouseEnter);
        }
        events.push(Event::MouseMove(((l % 65536) as u16, (l / 65536) as u16)));
    } else if msg == WM_MOUSELEAVE {
        state.mouse_tracked = false;
        events.push(Event::MouseLeave);
    } else if msg == WM_LBUTTONDOWN || msg == WM_LBUTTONUP || msg == WM_RBUTTONDOWN || msg == WM_RBUTTONUP
        || msg == WM_MBUTTONDOWN || msg == WM_MBUTTONUP {
        let b = if msg == WM_LBUTTONDOWN || msg == WM_LBUTTONUP {
            MouseButton::Left
        } else if msg == WM_RBUTTONDOWN || msg == WM_RBUTTONUP {
            MouseButton::Right
        } else {
            MouseButton::Middle
        };
        let down = msg == WM_LBUTTONDOWN || msg == WM_RBUTTONDOWN || msg == WM_MBUTTONDOWN;
        events.push(if down { Event::MouseDown(b) } else { Event::MouseUp(b) });
    } else if msg == WM_NULL || msg == WM_DESTROY || msg == WM_ACTIVATE {
    } else {
        reply = Reply::Default;
    }
    proof {
        let (e, t, m, p) = translation(*old(state), msg, w, l, layout_char);
        assert(events@ =~= e);
    }
    Outcome { events, track_mouse, reply }
}

} // verus!
