use vstd::prelude::*;
use crate::decoration::{Cursor, Style};

verus! {

/// Window style bits.
pub const WS_POPUP: u32 = 0x8000_0000;
pub const WS_VISIBLE: u32 = 0x1000_0000;
/// An overlapped window with border and title bar.
pub const WS_CAPTION: u32 = 0x00C0_0000;
pub const WS_SYSMENU: u32 = 0x0008_0000;
pub const WS_THICKFRAME: u32 = 0x0004_0000;
pub const WS_MINIMIZEBOX: u32 = 0x0002_0000;
pub const WS_MAXIMIZEBOX: u32 = 0x0001_0000;

/// The window style bits for a style (the bits are disjoint, so their sum
/// is their union): a popup when borderless, else a captioned window; the
/// system menu and the requested boxes when there are controls, the
/// maximise box only on a resizable window; a sizing frame when resizable;
/// shown when visible.
pub open spec fn style_bits(style: Style) -> int {
    (if style.borderless { WS_POPUP as int } else { WS_CAPTION as int })
    + match style.controls {
        Some(c) =>
            WS_SYSMENU + (if c.minimise { WS_MINIMIZEBOX as int } else { 0 })
            + (if c.maximise && style.resizable { WS_MAXIMIZEBOX as int } else { 0 }),
        None => 0,
    }
    + (if style.resizable { WS_THICKFRAME as int } else { 0 })
    + (if style.visible { WS_VISIBLE as int } else { 0 })
}

/// The style and extended style of a window. The close button is not a
/// style: see `close_menu_flags`.
pub fn style_to_bits(style: &Style) -> (r: (u32, u32))
    ensures
        r.0 == style_bits(*style),
        r.1 == 0,
{
    let mut bits: u32 = if style.borderless { WS_POPUP } else { WS_CAPTION };
    if let Some(c) = style.controls {
        bits = bits + WS_SYSMENU;
        if c.minimise {
            bits = bits + WS_MINIMIZEBOX;
        }
        if c.maximise && style.resizable {
            bits = bits + WS_MAXIMIZEBOX;
        }
    }
    if style.resizable {
        bits = bits + WS_THICKFRAME;
    }
    if style.visible {
        bits = bits + WS_VISIBLE;
    }
    (bits, 0)
}

/// Menu item flags.
pub const MF_GRAYED: u32 = 1;
pub const MF_DISABLED: u32 = 2;

/// Whether a style asks for a close button.
pub open spec fn wants_close(style: Style) -> bool {
    match style.controls {
        Some(c) => c.close,
        None => false,
    }
}

/// The flags for the close item of the system menu, which stands for the
/// close button: enabled, or disabled and greyed.
pub fn close_menu_flags(style: &Style) -> (r: u32)
    ensures
        wants_close(*style) ==> r == 0,
        !wants_close(*style) ==> r == MF_DISABLED + MF_GRAYED,
{
    let enabled = match style.controls {
        Some(c) => c.close,
        None => false,
    };
    if enabled { 0 } else { MF_DISABLED + MF_GRAYED }
}

/// The system's resource number for each cursor; `None` for no cursor.
pub open spec fn cursor_resource(cursor: Cursor) -> Option<u16> {
    match cursor {
        Cursor::Arrow => Some(32512u16),
        Cursor::Blank => None,
        Cursor::Cross => Some(32515u16),
        Cursor::Hand => Some(32649u16),
        Cursor::Help => Some(32651u16),
        Cursor::IBeam => Some(32513u16),
        Cursor::Progress => Some(32650u16),
        Cursor::ResizeNESW => Some(32643u16),
        Cursor::ResizeNS => Some(32645u16),
        Cursor::ResizeNWSE => Some(32642u16),
        Cursor::ResizeWE => Some(32644u16),
        Cursor::ResizeAll => Some(32646u16),
        Cursor::Unavailable => Some(32648u16),
        Cursor::Wait => Some(32514u16),
    }
}

/// The system cursor resource to load for `cursor`.
pub fn cursor_to_int_resource(cursor: Cursor) -> (r: Option<u16>)
    ensures
        r == cursor_resource(cursor),
{
    match cursor {
        Cursor::Arrow => Some(32512),
        Cursor::Blank => None,
        Cursor::Cross => Some(32515),
        Cursor::Hand => Some(32649),
        Cursor::Help => Some(32651),
        Cursor::IBeam => Some(32513),
        Cursor::Progress => Some(32650),
        Cursor::ResizeNESW => Some(32643),
        Cursor::ResizeNS => Some(32645),
        Cursor::ResizeNWSE => Some(32642),
        Cursor::ResizeWE => Some(32644),
        Cursor::ResizeAll => Some(32646),
        Cursor::Unavailable => Some(32648),
        Cursor::Wait => Some(32514),
    }
}

/// How the process takes part in display scaling.
#[derive(Clone, Copy, Debug, PartialEq, Eq, Structural)]
pub enum DpiMode {
    Unsupported,
    System,
    PerMonitorV1,
    PerMonitorV2,
}

/// Picks the newest scaling mode the system offers: per-monitor v2 from
/// the Creators Update, per-monitor from 8.1, system-wide from Vista.
pub fn select_dpi_mode(at_least_vista: bool, at_least_8_1: bool, at_least_creators_update: bool) -> (r: DpiMode)
    ensures
        at_least_creators_update ==> r == DpiMode::PerMonitorV2,
        !at_least_creators_update && at_least_8_1 ==> r == DpiMode::PerMonitorV1,
        !at_least_creators_update && !at_least_8_1 && at_least_vista ==> r == DpiMode::System,
        !at_least_creators_update && !at_least_8_1 && !at_least_vista ==> r == DpiMode::Unsupported,
{
    if at_least_creators_update {
        DpiMode::PerMonitorV2
    } else if at_least_8_1 {
        DpiMode::PerMonitorV1
    } else if at_least_vista {
        DpiMode::System
    } else {
        DpiMode::Unsupported
    }
}

/// Whether the frame is scaled per monitor, so that the outer size must be
/// computed for the window's own scale: per-monitor v2 always, v1 from the
/// Anniversary Update.
pub fn scales_frame(mode: DpiMode, at_least_anniversary_update: bool) -> (r: bool)
    ensures
        r == (mode == DpiMode::PerMonitorV2 || (mode == DpiMode::PerMonitorV1 && at_least_anniversary_update)),
{
    match mode {
        DpiMode::PerMonitorV2 => true,
        DpiMode::PerMonitorV1 => at_least_anniversary_update,
        _ => false,
    }
}

/// Whether the window follows the scale of the monitor it is on.
pub fn is_per_monitor(mode: DpiMode) -> (r: bool)
    ensures
        r == (mode == DpiMode::PerMonitorV1 || mode == DpiMode::PerMonitorV2),
{
    match mode {
        DpiMode::PerMonitorV1 | DpiMode::PerMonitorV2 => true,
        _ => false,
    }
}

/// The coordinate that lets the system place a window.
pub const USE_DEFAULT: i32 = i32::MIN;

/// `v` held within the range of `i32`.
pub open spec fn clamped(v: int) -> int {
    if v < i32::MIN { i32::MIN as int } else if v > i32::MAX { i32::MAX as int } else { v }
}

fn clamped_sum(a: i16, b: i32) -> (r: i32)
    ensures
        r == clamped(a + b),
{
    let v = a as i64 + b as i64;
    if v < i32::MIN as i64 {
        i32::MIN
    } else if v > i32::MAX as i64 {
        i32::MAX
    } else {
        v as i32
    }
}

/// The outer position to create a window at, for an inner position and the
/// offsets (`left`, `top`) of the inner area within the outer frame (held
/// within the coordinate range); the system's choice when no position was
/// asked for.
pub fn outer_position(position: Option<(i16, i16)>, left: i32, top: i32) -> (r: (i32, i32))
    ensures
        position matches Some(p) ==> r.0 == clamped(p.0 + left) && r.1 == clamped(p.1 + top),
        position is None ==> r == (USE_DEFAULT, USE_DEFAULT),
{
    match position {
        Some(p) => (clamped_sum(p.0, left), clamped_sum(p.1, top)),
        None => (USE_DEFAULT, USE_DEFAULT),
    }
}

/// Show commands.
pub const SW_HIDE: i32 = 0;
pub const SW_SHOWNORMAL: i32 = 1;
pub const SW_MAXIMIZE: i32 = 3;
pub const SW_SHOW: i32 = 5;

/// The show command that asks for `maximised` on a window whose recorded
/// state is `is_max`; nothing when the two agree.
pub fn maximise_command(is_max: bool, maximised: bool) -> (r: Option<i32>)
    ensures
        is_max == maximised ==> r is None,
        is_max != maximised && maximised ==> r == Some(SW_MAXIMIZE),
        is_max != maximised && !maximised ==> r == Some(SW_SHOWNORMAL),
{
    if is_max == maximised {
        None
    } else if maximised {
        Some(SW_MAXIMIZE)
    } else {
        Some(SW_SHOWNORMAL)
    }
}

/// The show command that shows or hides a window.
pub fn visibility_command(visible: bool) -> (r: i32)
    ensures
        r == (if visible { SW_SHOW } else { SW_HIDE }),
{
    if visible { SW_SHOW } else { SW_HIDE }
}

} // verus!
