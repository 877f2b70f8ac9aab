use vstd::prelude::*;
use crate::builder::Builder;
use crate::decoration::Style;
use crate::x11::setup::Atoms;
use crate::x11::wire::{client_message_bytes, encode_client_message};

verus! {

/// Flags of the Motif window-manager hints.
pub const MWM_HINTS_FUNCTIONS: u32 = 1;
pub const MWM_HINTS_DECORATIONS: u32 = 2;
pub const MWM_FUNC_RESIZE: u32 = 2;
pub const MWM_FUNC_MOVE: u32 = 4;
pub const MWM_FUNC_MINIMIZE: u32 = 8;
pub const MWM_FUNC_MAXIMIZE: u32 = 16;
pub const MWM_FUNC_CLOSE: u32 = 32;
pub const MWM_DECOR_BORDER: u32 = 2;
pub const MWM_DECOR_RESIZEH: u32 = 4;
pub const MWM_DECOR_TITLE: u32 = 8;
pub const MWM_DECOR_MENU: u32 = 16;

/// The Motif hints property, which asks the window manager for decorations
/// and for the operations it offers on the window.
#[derive(Clone, Copy, Debug, PartialEq, Eq, Structural)]
pub struct MotifHints {
    pub flags: u32,
    pub functions: u32,
    pub decorations: u32,
    pub input_mode: u32,
    pub status: u32,
}

/// The decorations a style asks for: border and title unless borderless,
/// resize handles when resizable, a menu when there are controls.
pub open spec fn decorations_of(style: Style) -> int {
    (if !style.borderless { MWM_DECOR_BORDER + MWM_DECOR_TITLE } else { 0 })
    + (if style.resizable { MWM_DECOR_RESIZEH } else { 0 })
    + (if style.controls is Some { MWM_DECOR_MENU } else { 0 })
}

/// The operations a style offers: moving unless borderless, resizing when
/// resizable, and the requested controls; maximising only on a resizable
/// window.
pub open spec fn functions_of(style: Style) -> int {
    (if !style.borderless { MWM_FUNC_MOVE as int } else { 0 })
    + (if style.resizable { MWM_FUNC_RESIZE as int } else { 0 })
    + match style.controls {
        Some(c) =>
            (if c.minimise { MWM_FUNC_MINIMIZE as int } else { 0 })
            + (if c.maximise && style.resizable { MWM_FUNC_MAXIMIZE as int } else { 0 })
            + (if c.close { MWM_FUNC_CLOSE as int } else { 0 }),
        None => 0,
    }
}

/// The Motif hints for a style.
pub fn motif_hints(style: &Style) -> (r: MotifHints)
    ensures
        r.flags == MWM_HINTS_FUNCTIONS + MWM_HINTS_DECORATIONS,
        r.decorations == decorations_of(*style),
        r.functions == functions_of(*style),
        r.input_mode == 0,
        r.status == 0,
{
    let mut decorations: u32 = 0;
    let mut functions: u32 = 0;
    if !style.borderless {
        decorations = decorations + MWM_DECOR_BORDER + MWM_DECOR_TITLE;
        functions = functions + MWM_FUNC_MOVE;
    }
    if style.resizable {
        decorations = decorations + MWM_DECOR_RESIZEH;
        functions = functions + MWM_FUNC_RESIZE;
    }
    if let Some(c) = style.controls {
        decorations = decorations + MWM_DECOR_MENU;
        if c.minimise {
            functions = functions + MWM_FUNC_MINIMIZE;
        }
        if c.maximise && style.resizable {
            functions = functions + MWM_FUNC_MAXIMIZE;
        }
        if c.close {
            functions = functions + MWM_FUNC_CLOSE;
        }
    }
    MotifHints {
        flags: MWM_HINTS_FUNCTIONS + MWM_HINTS_DECORATIONS,
        functions,
        decorations,
        input_mode: 0,
        status: 0,
    }
}

impl MotifHints {
    /// The five words of the property value, in wire order.
    pub fn words(&self) -> (r: [u32; 5])
        ensures
            r@ == seq![self.flags, self.functions, self.decorations, self.input_mode, self.status],
    {
        let r = [self.flags, self.functions, self.decorations, self.input_mode, self.status];
        assert(r@ =~= seq![self.flags, self.functions, self.decorations, self.input_mode, self.status]);
        r
    }
}

/// Flags of the ICCCM size hints.
pub const SIZE_HINT_MIN: u32 = 16;
pub const SIZE_HINT_MAX: u32 = 32;
pub const SIZE_HINT_BASE: u32 = 256;

/// Number of words in the size hints property.
pub const SIZE_HINT_WORDS: usize = 18;

/// The size hints property for a window of `size`: a resizable window may
/// shrink to one pixel and grow freely, any other is held at `size`; the
/// base size is `size` either way.
pub open spec fn size_hint_words(resizable: bool, size: (u16, u16)) -> Seq<u32> {
    let flags = (SIZE_HINT_MIN + (if resizable { 0 } else { SIZE_HINT_MAX }) + SIZE_HINT_BASE) as u32;
    let (min_w, min_h): (u32, u32) = if resizable { (1, 1) } else { (size.0 as u32, size.1 as u32) };
    let (max_w, max_h): (u32, u32) = if resizable { (0, 0) } else { (size.0 as u32, size.1 as u32) };
    seq![flags, 0, 0, 0, 0, min_w, min_h, max_w, max_h, 0, 0, 0, 0, 0, 0, size.0 as u32, size.1 as u32, 0]
}

/// The words of the size hints property.
pub fn normal_hints(resizable: bool, size: (u16, u16)) -> (r: [u32; 18])
    ensures
        r@ == size_hint_words(resizable, size),
{
    let mut r = [0u32; 18];
    if resizable {
        r[0] = SIZE_HINT_MIN + SIZE_HINT_BASE;
        r[5] = 1;
        r[6] = 1;
    } else {
        r[0] = SIZE_HINT_MIN + SIZE_HINT_MAX + SIZE_HINT_BASE;
        r[5] = size.0 as u32;
        r[6] = size.1 as u32;
        r[7] = size.0 as u32;
        r[8] = size.1 as u32;
    }
    r[15] = size.0 as u32;
    r[16] = size.1 as u32;
    assert(r@ =~= size_hint_words(resizable, size));
    r
}

/// The request, sent to the root window, that asks the window manager to
/// maximise (`true`) or restore (`false`) window `xid` on both axes.
pub fn maximise_request(xid: u32, atoms: &Atoms, maximised: bool) -> (r: Vec<u8>)
    ensures
        r@ == client_message_bytes(
            xid,
            atoms.net_wm_state,
            seq![if maximised { 1u32 } else { 0u32 }, atoms.net_wm_state_maximized_horz, atoms.net_wm_state_maximized_vert, 1u32, 0u32],
        ),
{
    let action: u32 = if maximised { 1 } else { 0 };
    let data = [action, atoms.net_wm_state_maximized_horz, atoms.net_wm_state_maximized_vert, 1, 0];
    assert(data@ =~= seq![action, atoms.net_wm_state_maximized_horz, atoms.net_wm_state_maximized_vert, 1u32, 0u32]);
    encode_client_message(xid, atoms.net_wm_state, data)
}

/// Value mask of a configure request that sets the position.
pub const CONFIG_POSITION: u16 = 3;
/// Value mask of a configure request that sets the size.
pub const CONFIG_SIZE: u16 = 12;

/// A coordinate as a 32-bit request value: two's complement.
pub open spec fn coordinate_word(v: i16) -> u32 {
    if v >= 0 { v as u32 } else { (v + 0x1_0000_0000) as u32 }
}

/// The values of a configure request that moves a window to `position`.
pub fn position_values(position: (i16, i16)) -> (r: [u32; 2])
    ensures
        r@ == seq![coordinate_word(position.0), coordinate_word(position.1)],
{
    let x = if position.0 >= 0 { position.0 as u32 } else { (position.0 as i64 + 0x1_0000_0000) as u32 };
    let y = if position.1 >= 0 { position.1 as u32 } else { (position.1 as i64 + 0x1_0000_0000) as u32 };
    let r = [x, y];
    assert(r@ =~= seq![coordinate_word(position.0), coordinate_word(position.1)]);
    r
}

/// The values of a configure request that resizes a window to `size`.
pub fn size_values(size: (u16, u16)) -> (r: [u32; 2])
    ensures
        r@ == seq![size.0 as u32, size.1 as u32],
{
    let r = [size.0 as u32, size.1 as u32];
    assert(r@ =~= seq![size.0 as u32, size.1 as u32]);
    r
}

/// What creating a window asks of the server, read off its builder.
#[derive(Clone, Copy, Debug, PartialEq, Eq, Structural)]
pub struct CreatePlan {
    pub x: i16,
    pub y: i16,
    pub width: u16,
    pub height: u16,
    /// Whether to map (show) the window.
    pub map: bool,
    /// Whether to ask for maximisation after mapping.
    pub maximise: bool,
}

/// The creation requests for a builder: the requested position or the
/// origin, the requested size, mapping when visible, and maximising only a
/// window that is mapped.
pub fn creation_plan<C>(b: &Builder<C>) -> (r: CreatePlan)
    ensures
        b.position matches Some(p) ==> r.x == p.0 && r.y == p.1,
        b.position is None ==> r.x == 0 && r.y == 0,
        r.width == b.size.0 && r.height == b.size.1,
        r.map == b.style.visible,
        r.maximise == (b.style.visible && b.maximised),
{
    let (x, y) = match b.position {
        Some(p) => p,
        None => (0, 0),
    };
    CreatePlan {
        x,
        y,
        width: b.size.0,
        height: b.size.1,
        map: b.style.visible,
        maximise: b.style.visible && b.maximised,
    }
}

} // verus!
