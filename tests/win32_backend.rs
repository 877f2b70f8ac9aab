use ramen::decoration::{Controls, Cursor, Style};
use ramen::error::Error;
use ramen::event::{CloseReason, Event};
use ramen::input::{Key, MouseButton};
use ramen::win32::keys::{extend_key, map_tr_state, needs_layout_char, sys_key_event, translate_vk};
use ramen::win32::message::{
    translate_message, MessageState, Reply, WM_CHAR, WM_CLOSE, WM_KEYDOWN, WM_KEYUP, WM_KILLFOCUS,
    WM_LBUTTONDOWN, WM_MBUTTONUP, WM_MOUSELEAVE, WM_MOUSEMOVE, WM_MOVE, WM_SETFOCUS, WM_SHOWWINDOW,
    WM_SIZE, WM_SYSCOMMAND, WM_SYSKEYDOWN, WM_UNICHAR,
};
use ramen::win32::style::{
    close_menu_flags, cursor_to_int_resource, is_per_monitor, maximise_command, outer_position,
    scales_frame, select_dpi_mode, style_to_bits, visibility_command, DpiMode,
};
use ramen::win32::worker::{classify_pull, LoopStep, Rendezvous, CREATE_REQUEST};

fn words(lo: u16, hi: u16) -> u32 {
    lo as u32 | ((hi as u32) << 16)
}

#[test]
fn virtual_keys() {
    assert_eq!(translate_vk(0x41, 0), Some(Key::A));
    assert_eq!(translate_vk(0x5A, 0), Some(Key::Z));
    assert_eq!(translate_vk(0x39, 0), Some(Key::Alpha9));
    assert_eq!(translate_vk(0x60, 0), Some(Key::Keypad0));
    assert_eq!(translate_vk(0x87, 0), Some(Key::F24));
    assert_eq!(translate_vk(0x2C, 0), Some(Key::PrintScreen));
    assert_eq!(translate_vk(0xA5, 0), Some(Key::RightAlt));
    assert_eq!(translate_vk(0x01, 0), None);
    assert_eq!(translate_vk(0xFF, 0), None);
    assert!(needs_layout_char(0xBA));
    assert!(!needs_layout_char(0x41));
    assert_eq!(translate_vk(0xBA, 59), Some(Key::Semicolon));
    assert_eq!(translate_vk(0xBC, 44), Some(Key::Comma));
    assert_eq!(translate_vk(0xBA, 0), None);
}

#[test]
fn left_and_right_modifiers() {
    assert_eq!(extend_key(Key::LeftShift, 54 << 16), Key::RightShift);
    assert_eq!(extend_key(Key::LeftShift, 42 << 16), Key::LeftShift);
    assert_eq!(extend_key(Key::LeftControl, 1 << 24), Key::RightControl);
    assert_eq!(extend_key(Key::LeftAlt, 1 << 24), Key::RightAlt);
    assert_eq!(extend_key(Key::LeftAlt, 0), Key::LeftAlt);
    assert_eq!(extend_key(Key::A, 1 << 24), Key::A);
}

#[test]
fn key_transitions() {
    assert_eq!(map_tr_state(Key::A, 1), Event::KeyboardDown(Key::A));
    assert_eq!(map_tr_state(Key::A, 1 << 30), Event::KeyboardRepeat(Key::A));
    assert_eq!(map_tr_state(Key::A, (1 << 31) | (1 << 30)), Event::KeyboardUp(Key::A));
}

#[test]
fn system_keys() {
    // a bare system key press without Alt is not a key
    assert_eq!(sys_key_event(0x41, 0, 0), None);
    assert_eq!(sys_key_event(0x79, 0, 0), Some(Event::KeyboardDown(Key::F10)));
    assert_eq!(sys_key_event(0x12, 1 << 29, 0), Some(Event::KeyboardDown(Key::LeftAlt)));
    assert_eq!(sys_key_event(0x12, (1 << 31) | (1 << 24), 0), Some(Event::KeyboardUp(Key::RightAlt)));
}

fn run(state: &mut MessageState, msg: u32, w: u32, l: u32) -> (Vec<Event>, bool, Reply) {
    let o = translate_message(state, msg, w, l, 0);
    (o.events, o.track_mouse, o.reply)
}

#[test]
fn size_and_state_messages() {
    let mut s = MessageState::new((0, 0), (800, 600));
    assert_eq!(run(&mut s, WM_SIZE, 0, words(640, 480)).0, vec![Event::Resize((640, 480))]);
    assert_eq!(run(&mut s, WM_SIZE, 0, words(640, 480)).0, Vec::<Event>::new());
    assert_eq!(run(&mut s, WM_SIZE, 2, words(1920, 1000)).0, vec![Event::Resize((1920, 1000)), Event::Maximise(true)]);
    // minimising a maximised window un-maximises first, and keeps the size
    assert_eq!(run(&mut s, WM_SIZE, 1, 0).0, vec![Event::Maximise(false), Event::Minimise(true)]);
    assert_eq!(s.size, (1920, 1000));
    assert_eq!(run(&mut s, WM_SIZE, 2, words(1920, 1000)).0, vec![Event::Minimise(false), Event::Maximise(true)]);
    assert_eq!(run(&mut s, WM_SIZE, 0, words(800, 600)).0, vec![Event::Resize((800, 600)), Event::Maximise(false)]);
}

#[test]
fn move_messages() {
    let mut s = MessageState::new((0, 0), (800, 600));
    assert_eq!(run(&mut s, WM_MOVE, 0, words(100, (-20i16) as u16)).0, vec![Event::Move((100, -20))]);
    assert_eq!(run(&mut s, WM_MOVE, 0, words(100, (-20i16) as u16)).0, Vec::<Event>::new());
    let minimised = (-32000i16) as u16;
    assert_eq!(run(&mut s, WM_MOVE, 0, words(minimised, minimised)).0, Vec::<Event>::new());
    assert_eq!(s.position, (100, -20));
}

#[test]
fn close_reasons() {
    let mut s = MessageState::new((0, 0), (800, 600));
    assert_eq!(run(&mut s, WM_CLOSE, 0, 0), (vec![Event::CloseRequest(CloseReason::Unknown)], false, Reply::Handled(0)));
    assert_eq!(run(&mut s, WM_SYSCOMMAND, 0xF060, 0).0, vec![Event::CloseRequest(CloseReason::SystemMenu)]);
    assert_eq!(run(&mut s, WM_SYSCOMMAND, 0xF030, 0), (vec![], false, Reply::Default));
    let alt_f4 = run(&mut s, WM_SYSKEYDOWN, 0x73, 1 << 29).0;
    assert_eq!(alt_f4, vec![Event::CloseRequest(CloseReason::KeyboardShortcut), Event::KeyboardDown(Key::F4)]);
}

#[test]
fn key_and_focus_messages() {
    let mut s = MessageState::new((0, 0), (800, 600));
    assert_eq!(run(&mut s, WM_KEYDOWN, 0x41, 1).0, vec![Event::KeyboardDown(Key::A)]);
    assert_eq!(run(&mut s, WM_KEYUP, 0x10, (1 << 31) | (54 << 16)).0, vec![Event::KeyboardUp(Key::RightShift)]);
    assert_eq!(run(&mut s, WM_KEYDOWN, 0x07, 1).0, Vec::<Event>::new());
    assert_eq!(translate_message(&mut s, WM_KEYDOWN, 0xBF, 1, 47).events, vec![Event::KeyboardDown(Key::Slash)]);
    assert_eq!(run(&mut s, WM_SETFOCUS, 0, 0).0, vec![Event::Focus(true)]);
    assert_eq!(run(&mut s, WM_KILLFOCUS, 0, 0).0, vec![Event::Focus(false)]);
    assert_eq!(run(&mut s, WM_SHOWWINDOW, 1, 0).0, vec![Event::Visible(true)]);
    assert_eq!(run(&mut s, WM_SHOWWINDOW, 0, 3).0, Vec::<Event>::new());
    assert_eq!(run(&mut s, 0x9999, 0, 0), (vec![], false, Reply::Default));
}

#[test]
fn character_messages() {
    let mut s = MessageState::new((0, 0), (800, 600));
    assert_eq!(run(&mut s, WM_CHAR, 'x' as u32, 0).0, vec![Event::Input('x')]);
    assert_eq!(run(&mut s, WM_CHAR, 0, 0).0, Vec::<Event>::new());
    // a supplementary character arrives as two surrogates
    assert_eq!(run(&mut s, WM_CHAR, 0xD83D, 0).0, Vec::<Event>::new());
    assert_eq!(run(&mut s, WM_CHAR, 0xDE4F, 0).0, vec![Event::Input('\u{1F64F}')]);
    // a lone low surrogate is dropped
    assert_eq!(run(&mut s, WM_CHAR, 0xDE4F, 0).0, Vec::<Event>::new());
    assert_eq!(run(&mut s, WM_UNICHAR, 0xFFFF, 0), (vec![], false, Reply::Handled(1)));
    assert_eq!(run(&mut s, WM_UNICHAR, 0x1F600, 0).0, vec![Event::Input('\u{1F600}')]);
    assert_eq!(run(&mut s, WM_UNICHAR, 0xD800, 0).0, Vec::<Event>::new());
}

#[test]
fn mouse_messages() {
    let mut s = MessageState::new((0, 0), (800, 600));
    assert_eq!(run(&mut s, WM_MOUSEMOVE, 0, words(5, 6)), (vec![Event::MouseEnter, Event::MouseMove((5, 6))], true, Reply::Handled(0)));
    assert_eq!(run(&mut s, WM_MOUSEMOVE, 0, words(7, 8)), (vec![Event::MouseMove((7, 8))], false, Reply::Handled(0)));
    assert_eq!(run(&mut s, WM_MOUSELEAVE, 0, 0).0, vec![Event::MouseLeave]);
    assert!(!s.mouse_tracked);
    assert_eq!(run(&mut s, WM_LBUTTONDOWN, 0, 0).0, vec![Event::MouseDown(MouseButton::Left)]);
    assert_eq!(run(&mut s, WM_MBUTTONUP, 0, 0).0, vec![Event::MouseUp(MouseButton::Middle)]);
}

#[test]
fn window_styles() {
    assert_eq!(style_to_bits(&Style::new()), (0x00C0_0000 | 0x0008_0000 | 0x0002_0000 | 0x0001_0000 | 0x0004_0000 | 0x1000_0000, 0));
    let popup = Style::new().borderless(true).controls(None).resizable(false).visible(false);
    assert_eq!(style_to_bits(&popup), (0x8000_0000, 0));
    let fixed = Style::new().resizable(false);
    assert_eq!(style_to_bits(&fixed).0, 0x00C0_0000 | 0x0008_0000 | 0x0002_0000 | 0x1000_0000);
    assert_eq!(close_menu_flags(&Style::new()), 0);
    assert_eq!(close_menu_flags(&Style::new().controls(Some(Controls::new().close(false)))), 3);
    assert_eq!(close_menu_flags(&Style::new().controls(None)), 3);
}

#[test]
fn cursors_and_scaling() {
    assert_eq!(cursor_to_int_resource(Cursor::Arrow), Some(32512));
    assert_eq!(cursor_to_int_resource(Cursor::Blank), None);
    assert_eq!(cursor_to_int_resource(Cursor::Wait), Some(32514));
    assert_eq!(select_dpi_mode(true, true, true), DpiMode::PerMonitorV2);
    assert_eq!(select_dpi_mode(true, true, false), DpiMode::PerMonitorV1);
    assert_eq!(select_dpi_mode(true, false, false), DpiMode::System);
    assert_eq!(select_dpi_mode(false, false, false), DpiMode::Unsupported);
    assert!(scales_frame(DpiMode::PerMonitorV2, false));
    assert!(!scales_frame(DpiMode::PerMonitorV1, false));
    assert!(scales_frame(DpiMode::PerMonitorV1, true));
    assert!(!scales_frame(DpiMode::System, true));
    assert!(is_per_monitor(DpiMode::PerMonitorV1) && !is_per_monitor(DpiMode::System));
    assert_eq!(outer_position(Some((10, 20)), -8, -31), (2, -11));
    assert_eq!(outer_position(None, -8, -31), (i32::MIN, i32::MIN));
    assert_eq!(maximise_command(false, true), Some(3));
    assert_eq!(maximise_command(true, false), Some(1));
    assert_eq!(maximise_command(true, true), None);
    assert_eq!(visibility_command(true), 5);
    assert_eq!(visibility_command(false), 0);
}

#[test]
fn worker_loop_and_rendezvous() {
    assert_eq!(classify_pull(0, true, 0), LoopStep::Quit);
    assert_eq!(classify_pull(-1, false, 0), LoopStep::Fatal);
    assert_eq!(classify_pull(1, false, 0x0100), LoopStep::Dispatch);
    assert_eq!(classify_pull(1, true, CREATE_REQUEST), LoopStep::CreateWindow);
    assert_eq!(classify_pull(1, true, 0x0999), LoopStep::Ignore);

    let mut r = Rendezvous::new();
    assert_eq!(r.take(), None);
    assert!(r.resolve(false, 0x1234));
    assert!(!r.resolve(true, 0));
    assert_eq!(r.take(), Some(Ok(0x1234)));
    assert_eq!(r.take(), None);
    assert!(!r.resolve(false, 0x99));

    let mut failed = Rendezvous::new();
    assert!(failed.resolve(false, 0));
    assert_eq!(failed.take(), Some(Err(Error::SystemResources)));
    let mut unregistered = Rendezvous::new();
    assert!(unregistered.resolve(true, 0x55));
    assert_eq!(unregistered.take(), Some(Err(Error::SystemResources)));
}
