use ramen::error::Error;
use ramen::event::{CloseReason, Event};
use ramen::input::{Key, MouseButton};
use ramen::pending::PendingTable;
use ramen::builder::Builder;
use ramen::decoration::{Controls, Style};
use ramen::x11::hints::{
    creation_plan, maximise_request, motif_hints, normal_hints, position_values, size_values,
};
use ramen::x11::keysym::keysym_to_key;
use ramen::x11::setup::{
    atom_names, atoms_from_replies, checked_window_id, connection_status, create_window_error,
    flush_outcome, input_extension_opcode, instance_name, next_hostname_len, protocol_atoms,
    terminate_hostname, wm_class_bytes, Atoms,
};
use ramen::x11::state::{reconcile_wm_state, WmState};
use ramen::x11::translate::{wm_state_from_atoms, Answer, Query, XWindow};
use ramen::x11::wire::{decode, encode_client_message, Notification};

const ROOT: u32 = 0x100;

fn atoms() -> Atoms {
    Atoms {
        wm_protocols: 301,
        wm_delete_window: 302,
        net_wm_name: 303,
        utf8_string: 304,
        net_wm_pid: 305,
        wm_client_machine: 306,
        net_wm_ping: 307,
        net_wm_state: 308,
        net_wm_state_maximized_horz: 309,
        net_wm_state_maximized_vert: 310,
        net_wm_state_hidden: 311,
        motif_wm_hints: 312,
    }
}

fn put32(b: &mut [u8], at: usize, v: u32) {
    b[at..at + 4].copy_from_slice(&v.to_le_bytes());
}

fn put16(b: &mut [u8], at: usize, v: u16) {
    b[at..at + 2].copy_from_slice(&v.to_le_bytes());
}

fn configure_record(window: u32, x: i16, y: i16, w: u16, h: u16, sent: bool) -> Vec<u8> {
    let mut b = vec![0u8; 36];
    b[0] = if sent { 22 | 0x80 } else { 22 };
    put32(&mut b, 4, window);
    put32(&mut b, 8, window);
    put16(&mut b, 16, x as u16);
    put16(&mut b, 18, y as u16);
    put16(&mut b, 20, w);
    put16(&mut b, 22, h);
    b
}

fn property_record(window: u32, atom: u32, state: u8) -> Vec<u8> {
    let mut b = vec![0u8; 36];
    b[0] = 28;
    put32(&mut b, 4, window);
    put32(&mut b, 8, atom);
    b[16] = state;
    b
}

fn state_answer(list: &[u32]) -> Answer {
    Answer::StateProperty(Some(list.to_vec()))
}

fn delivered(w: &mut XWindow, n: &Notification, answer: &Answer) -> Vec<Event> {
    w.process(n, &atoms(), ROOT, answer);
    w.buffer.flip();
    w.buffer.events().to_vec()
}

#[test]
fn composite_state_trace_unflips_maximise_before_minimise() {
    let a = atoms();
    let mut w = XWindow::new(0x200, ROOT, (0, 0), (800, 600));
    let n = decode(&property_record(0x200, a.net_wm_state, 0), None);
    let full = [a.net_wm_state_maximized_horz, a.net_wm_state_maximized_vert];
    let hidden = [a.net_wm_state_maximized_horz, a.net_wm_state_maximized_vert, a.net_wm_state_hidden];
    w.process(&n, &a, ROOT, &state_answer(&[]));
    w.process(&n, &a, ROOT, &state_answer(&full));
    w.process(&n, &a, ROOT, &state_answer(&hidden));
    w.buffer.flip();
    assert_eq!(
        w.buffer.events(),
        &[Event::Maximise(true), Event::Maximise(false), Event::Minimise(true)]
    );
}

#[test]
fn leaving_minimised_while_maximised_restores_maximise() {
    let a = atoms();
    let normal = WmState::normal();
    let hidden = WmState { maximised_horz: true, maximised_vert: true, minimised: true };
    let full = WmState { maximised_horz: true, maximised_vert: true, minimised: false };
    assert_eq!(reconcile_wm_state(hidden, full), vec![Event::Minimise(false), Event::Maximise(true)]);
    assert_eq!(reconcile_wm_state(hidden, normal), vec![Event::Minimise(false)]);
    assert_eq!(reconcile_wm_state(full, normal), vec![Event::Maximise(false)]);
    let half = WmState { maximised_horz: true, maximised_vert: false, minimised: false };
    assert_eq!(reconcile_wm_state(normal, half), Vec::<Event>::new());
    assert_eq!(reconcile_wm_state(full, half), vec![Event::Maximise(false)]);
    let _ = a;
}

#[test]
fn repeated_state_notification_is_silent() {
    let a = atoms();
    let mut w = XWindow::new(0x200, ROOT, (0, 0), (800, 600));
    let n = decode(&property_record(0x200, a.net_wm_state, 0), None);
    let answer = state_answer(&[a.net_wm_state_hidden]);
    assert_eq!(delivered(&mut w, &n, &answer), vec![Event::Minimise(true)]);
    assert_eq!(delivered(&mut w, &n, &answer), Vec::<Event>::new());
}

#[test]
fn deleted_state_property_resets_state() {
    let a = atoms();
    let mut w = XWindow::new(0x200, ROOT, (0, 0), (800, 600));
    let n = decode(&property_record(0x200, a.net_wm_state, 0), None);
    w.process(&n, &a, ROOT, &state_answer(&[a.net_wm_state_maximized_horz, a.net_wm_state_maximized_vert]));
    let d = decode(&property_record(0x200, a.net_wm_state, 1), None);
    assert_eq!(w.query_for(&d, &a, ROOT), Query::Nothing);
    w.buffer.flip();
    assert_eq!(delivered(&mut w, &d, &Answer::Nothing), vec![Event::Maximise(false)]);
    assert_eq!(w.cache.wm, WmState::normal());
}

#[test]
fn failed_state_fetch_changes_nothing() {
    let a = atoms();
    let mut w = XWindow::new(0x200, ROOT, (0, 0), (800, 600));
    let n = decode(&property_record(0x200, a.net_wm_state, 0), None);
    assert_eq!(w.query_for(&n, &a, ROOT), Query::StateProperty);
    assert_eq!(delivered(&mut w, &n, &Answer::StateProperty(None)), Vec::<Event>::new());
    let other = decode(&property_record(0x200, a.net_wm_name, 0), None);
    assert_eq!(w.query_for(&other, &a, ROOT), Query::Nothing);
}

#[test]
fn resize_example() {
    let builder = Builder::new((), None).size((800, 608));
    let plan = creation_plan(&builder);
    let mut w = XWindow::new(0x200, ROOT, (plan.x, plan.y), (plan.width, plan.height));
    let n = decode(&configure_record(0x200, 0, 0, 640, 480, false), None);
    assert_eq!(delivered(&mut w, &n, &Answer::Nothing), vec![Event::Resize((640, 480))]);
    assert_eq!(delivered(&mut w, &n, &Answer::Nothing), Vec::<Event>::new());
}

#[test]
fn move_in_frame_uses_root_coordinates() {
    let a = atoms();
    let mut w = XWindow::new(0x200, ROOT, (0, 0), (800, 600));
    let mut reparent = vec![0u8; 36];
    reparent[0] = 21;
    put32(&mut reparent, 8, 0x200);
    put32(&mut reparent, 12, 0x999);
    let r = decode(&reparent, None);
    assert_eq!(r, Notification::Reparent { window: 0x200, parent: 0x999 });
    assert_eq!(delivered(&mut w, &r, &Answer::Nothing), Vec::<Event>::new());
    assert_eq!(w.cache.parent, 0x999);
    let n = decode(&configure_record(0x200, 4, 20, 800, 600, false), None);
    assert_eq!(w.query_for(&n, &a, ROOT), Query::RootCoordinates);
    assert_eq!(
        delivered(&mut w, &n, &Answer::RootCoordinates(Some((104, 220)))),
        vec![Event::Move((104, 220))]
    );
    // a failed translation still reports the size but leaves the position
    let n2 = decode(&configure_record(0x200, 4, 20, 500, 400, false), None);
    assert_eq!(delivered(&mut w, &n2, &Answer::RootCoordinates(None)), vec![Event::Resize((500, 400))]);
    assert_eq!(w.cache.position, (104, 220));
    // a synthetic record is already in root coordinates
    let s = decode(&configure_record(0x200, -30, 50, 500, 400, true), None);
    assert_eq!(w.query_for(&s, &a, ROOT), Query::Nothing);
    assert_eq!(delivered(&mut w, &s, &Answer::Nothing), vec![Event::Move((-30, 50))]);
}

#[test]
fn cache_follows_reports_after_requests() {
    let a = atoms();
    let mut w = XWindow::new(0x200, ROOT, (0, 0), (800, 600));
    // a resize request changes nothing until the server reports
    let _ = size_values((1024, 768));
    assert_eq!(w.cache.size, (800, 600));
    let n = decode(&configure_record(0x200, 10, 10, 1000, 700, false), None);
    w.process(&n, &a, ROOT, &Answer::Nothing);
    assert_eq!(w.cache.size, (1000, 700));
    assert_eq!(w.cache.position, (10, 10));
    let p = decode(&property_record(0x200, a.net_wm_state, 0), None);
    w.process(&p, &a, ROOT, &state_answer(&[a.net_wm_state_maximized_vert]));
    assert_eq!(w.cache.wm, WmState { maximised_horz: false, maximised_vert: true, minimised: false });
}

#[test]
fn close_round_trip_reaches_only_its_window() {
    let a = atoms();
    let mut table: PendingTable<Notification> = PendingTable::new();
    table.register(0x200);
    table.register(0x300);
    let mut w = XWindow::new(0x200, ROOT, (0, 0), (800, 600));
    let mut v = XWindow::new(0x300, ROOT, (0, 0), (800, 600));
    let mut record = encode_client_message(0x200, a.wm_protocols, [a.wm_delete_window, 0, 0, 0, 0]);
    record.extend_from_slice(&[0, 0, 0, 0]);
    record[0] |= 0x80;
    let n = decode(&record, None);
    assert_eq!(n.target(), Some(0x200));
    // drained while the sibling polls
    assert_eq!(table.route(0x300, n.target(), n), None);
    v.buffer.flip();
    assert!(v.buffer.events().is_empty());
    for q in table.take(0x200) {
        w.process(&q, &a, ROOT, &Answer::Nothing);
    }
    w.buffer.flip();
    assert_eq!(w.buffer.events(), &[Event::CloseRequest(CloseReason::Unknown)]);
}

#[test]
fn event_drained_by_sibling_appears_in_next_poll() {
    let a = atoms();
    let mut table: PendingTable<Notification> = PendingTable::new();
    table.register(1);
    table.register(2);
    let mut b = XWindow::new(2, ROOT, (0, 0), (800, 600));
    let mut focus = vec![0u8; 36];
    focus[0] = 9;
    put32(&mut focus, 4, 2);
    let n = decode(&focus, None);
    assert_eq!(table.route(1, n.target(), n), None);
    for q in table.take(2) {
        b.process(&q, &a, ROOT, &Answer::Nothing);
    }
    b.buffer.flip();
    assert_eq!(b.buffer.events(), &[Event::Focus(true)]);
}

#[test]
fn ping_is_answered_to_root() {
    let a = atoms();
    let mut w = XWindow::new(0x200, ROOT, (0, 0), (800, 600));
    let mut record = encode_client_message(0x200, a.wm_protocols, [a.net_wm_ping, 77, 0x200, 0, 0]);
    record.extend_from_slice(&[0, 0, 0, 0]);
    let n = decode(&record, None);
    let reply = w.process(&n, &a, ROOT, &Answer::Nothing);
    assert_eq!(reply, Some(encode_client_message(ROOT, a.wm_protocols, [a.net_wm_ping, 77, 0x200, 0, 0])));
    w.buffer.flip();
    assert!(w.buffer.events().is_empty());
}

#[test]
fn map_unmap_and_focus() {
    let mut w = XWindow::new(0x200, ROOT, (0, 0), (800, 600));
    for (code, expect) in [(19u8, Event::Visible(true)), (18, Event::Visible(false)), (10, Event::Focus(false))] {
        let mut r = vec![0u8; 36];
        r[0] = code;
        put32(&mut r, 4, 0x200);
        put32(&mut r, 8, 0x200);
        let n = decode(&r, None);
        assert_eq!(n.target(), Some(0x200));
        assert_eq!(delivered(&mut w, &n, &Answer::Nothing), vec![expect]);
    }
}

fn generic_record(opcode: u8, kind: u16, window: u32) -> Vec<u8> {
    let mut b = vec![0u8; 84];
    b[0] = 35;
    b[1] = opcode;
    put16(&mut b, 8, kind);
    put32(&mut b, 24, window);
    b
}

#[test]
fn input_extension_events() {
    let a = atoms();
    let mut w = XWindow::new(0x200, ROOT, (0, 0), (800, 600));
    let mut key = generic_record(131, 2, 0x200);
    put32(&mut key, 16, 38);
    put32(&mut key, 76, 1);
    let n = decode(&key, Some(131));
    assert_eq!(n, Notification::Key { window: 0x200, pressed: true, repeat: false, keycode: 38, modifiers: 1 });
    assert_eq!(w.query_for(&n, &a, ROOT), Query::KeySymbols { keycode: 38, modifiers: 1 });
    let ks = Answer::KeySymbols { unmodified: 0x61, modified: 0x41, text: 0x41 };
    assert_eq!(delivered(&mut w, &n, &ks), vec![Event::KeyboardDown(Key::A), Event::Input('A')]);
    key[62] = 1;
    let rep = decode(&key, Some(131));
    assert_eq!(delivered(&mut w, &rep, &ks), vec![Event::KeyboardRepeat(Key::A), Event::Input('A')]);
    put16(&mut key, 8, 3);
    let up = decode(&key, Some(131));
    assert_eq!(delivered(&mut w, &up, &ks), vec![Event::KeyboardUp(Key::A)]);
    let no_text = Answer::KeySymbols { unmodified: 0xFFE1, modified: 0xFFE1, text: 0 };
    assert_eq!(delivered(&mut w, &n, &no_text), vec![Event::KeyboardDown(Key::LeftShift)]);

    let mut button = generic_record(131, 4, 0x200);
    put32(&mut button, 16, 3);
    assert_eq!(delivered(&mut w, &decode(&button, Some(131)), &Answer::Nothing), vec![Event::MouseDown(MouseButton::Right)]);
    put32(&mut button, 16, 4);
    assert_eq!(delivered(&mut w, &decode(&button, Some(131)), &Answer::Nothing), Vec::<Event>::new());

    let mut motion = generic_record(131, 6, 0x200);
    put32(&mut motion, 44, (120u32 << 16) | 0x8000);
    put32(&mut motion, 48, 45u32 << 16);
    assert_eq!(delivered(&mut w, &decode(&motion, Some(131)), &Answer::Nothing), vec![Event::MouseMove((120, 45))]);

    assert_eq!(delivered(&mut w, &decode(&generic_record(131, 7, 0x200), Some(131)), &Answer::Nothing), vec![Event::MouseEnter]);
    assert_eq!(delivered(&mut w, &decode(&generic_record(131, 8, 0x200), Some(131)), &Answer::Nothing), vec![Event::MouseLeave]);
    assert_eq!(delivered(&mut w, &decode(&generic_record(131, 9, 0x200), Some(131)), &Answer::Nothing), vec![Event::Focus(true)]);
    // another extension's generic event, and a too short record
    assert_eq!(decode(&generic_record(132, 7, 0x200), Some(131)), Notification::Other);
    assert_eq!(decode(&generic_record(131, 7, 0x200), None), Notification::Other);
    assert_eq!(decode(&[33u8; 20], None), Notification::Other);
    assert_eq!(decode(&generic_record(131, 2, 0x200)[..40], Some(131)), Notification::Other);
    assert_eq!(Notification::Other.target(), None);
}

#[test]
fn keysym_table() {
    assert_eq!(keysym_to_key(0x61, 0x41), Some(Key::A));
    assert_eq!(keysym_to_key(0x7A, 0x5A), Some(Key::Z));
    assert_eq!(keysym_to_key(0x30, 0x29), Some(Key::Alpha0));
    assert_eq!(keysym_to_key(0x2C, 0x3C), Some(Key::Comma));
    assert_eq!(keysym_to_key(0xFFBE, 0xFFBE), Some(Key::F1));
    assert_eq!(keysym_to_key(0xFFD5, 0xFFD5), Some(Key::F24));
    assert_eq!(keysym_to_key(0xFF58, 0), Some(Key::Home));
    assert_eq!(keysym_to_key(0xFFFF, 0), Some(Key::Delete));
    // the keypad goes by the modified keysym
    assert_eq!(keysym_to_key(0xFFB0, 0xFFB0), Some(Key::Keypad0));
    assert_eq!(keysym_to_key(0xFFB0, 0xFF9E), Some(Key::Insert));
    assert_eq!(keysym_to_key(0xFF9C, 0xFFB1), Some(Key::Keypad1));
    assert_eq!(keysym_to_key(0xFFB0, 0x1234), None);
    assert_eq!(keysym_to_key(0x41, 0x41), None);
    assert_eq!(keysym_to_key(0x1_0000_0061, 0), None);
}

#[test]
fn wm_state_from_atom_list() {
    let a = atoms();
    assert_eq!(wm_state_from_atoms(&[], &a), WmState::normal());
    assert_eq!(
        wm_state_from_atoms(&[999, a.net_wm_state_hidden, a.net_wm_state_maximized_horz], &a),
        WmState { maximised_horz: true, maximised_vert: false, minimised: true }
    );
}

#[test]
fn motif_hints_for_styles() {
    let h = motif_hints(&Style::new());
    assert_eq!(h.flags, 3);
    assert_eq!(h.decorations, 2 + 8 + 4 + 16);
    assert_eq!(h.functions, 4 + 2 + 8 + 16 + 32);
    assert_eq!(h.words(), [3, 62, 30, 0, 0]);
    let b = motif_hints(&Style::new().borderless(true).resizable(false).controls(Some(Controls::new().close(false))));
    assert_eq!(b.decorations, 16);
    assert_eq!(b.functions, 8);
    let none = motif_hints(&Style::new().controls(None));
    assert_eq!(none.decorations, 2 + 8 + 4);
    assert_eq!(none.functions, 4 + 2);
}

#[test]
fn size_hints() {
    let r = normal_hints(true, (800, 600));
    assert_eq!(r, [16 + 256, 0, 0, 0, 0, 1, 1, 0, 0, 0, 0, 0, 0, 0, 0, 800, 600, 0]);
    let f = normal_hints(false, (640, 480));
    assert_eq!(f, [16 + 32 + 256, 0, 0, 0, 0, 640, 480, 640, 480, 0, 0, 0, 0, 0, 0, 640, 480, 0]);
}

#[test]
fn requests() {
    let a = atoms();
    assert_eq!(position_values((10, -2)), [10, 0xFFFF_FFFE]);
    assert_eq!(size_values((800, 608)), [800, 608]);
    let m = maximise_request(0x200, &a, true);
    assert_eq!(m, encode_client_message(0x200, a.net_wm_state, [1, 309, 310, 1, 0]));
    assert_eq!(maximise_request(0x200, &a, false)[12], 0);
    assert_eq!(protocol_atoms(&a), [302, 307]);
    let e = encode_client_message(0x01020304, 0x0A0B0C0D, [1, 2, 3, 4, 0xFFFF_FFFF]);
    assert_eq!(e.len(), 32);
    assert_eq!(&e[..12], &[33, 32, 0, 0, 4, 3, 2, 1, 0x0D, 0x0C, 0x0B, 0x0A]);
    assert_eq!(&e[28..], &[255, 255, 255, 255]);
}

#[test]
fn creation_plans() {
    let b = Builder::new((), None);
    let p = creation_plan(&b);
    assert_eq!((p.x, p.y, p.width, p.height, p.map, p.maximise), (0, 0, 800, 600, true, false));
    let hidden = creation_plan(&Builder::new((), None).visible(false).maximised(true).position(Some((3, 4))));
    assert_eq!((hidden.x, hidden.y, hidden.map, hidden.maximise), (3, 4, false, false));
    let shown = creation_plan(&Builder::new((), None).maximised(true));
    assert!(shown.map && shown.maximise);
}

#[test]
fn atoms_setup() {
    let names = atom_names();
    assert_eq!(names.len(), 12);
    assert_eq!(names[0], "WM_PROTOCOLS");
    assert_eq!(names[11], "_MOTIF_WM_HINTS");
    let replies: Vec<Option<u32>> = (1..=12).map(Some).collect();
    let a = atoms_from_replies(&replies).unwrap();
    assert_eq!(a.wm_protocols, 1);
    assert_eq!(a.net_wm_state_hidden, 11);
    assert_eq!(a.motif_wm_hints, 12);
    let mut bad = replies.clone();
    bad[5] = None;
    assert_eq!(atoms_from_replies(&bad), Err(Error::SystemResources));
    assert_eq!(atoms_from_replies(&replies[..11]), Err(Error::Invalid));
}

#[test]
fn connection_errors() {
    assert_eq!(connection_status(0), Ok(()));
    assert_eq!(connection_status(2), Err(Error::Unsupported));
    assert_eq!(connection_status(3), Err(Error::SystemResources));
    assert_eq!(connection_status(1), Err(Error::Invalid));
    assert_eq!(flush_outcome(1, 3), Ok(()));
    assert_eq!(flush_outcome(0, 0), Err(Error::Unknown));
    assert_eq!(flush_outcome(-1, 2), Err(Error::Unsupported));
    assert_eq!(checked_window_id(0xFFFF_FFFF), Err(Error::SystemResources));
    assert_eq!(checked_window_id(0x400001), Ok(0x400001));
    assert_eq!(create_window_error(11), Error::SystemResources);
    assert_eq!(create_window_error(8), Error::Invalid);
    assert_eq!(input_extension_opcode(None), Err(Error::SystemResources));
    assert_eq!(input_extension_opcode(Some((false, 131))), Err(Error::Unsupported));
    assert_eq!(input_extension_opcode(Some((true, 131))), Ok(131));
}

#[test]
fn hostname_handling() {
    assert_eq!(next_hostname_len(16), Some(32));
    assert_eq!(next_hostname_len(32768), Some(65536));
    assert_eq!(next_hostname_len(65536), None);
    assert_eq!(terminate_hostname(b"box\0\0\0"), b"box\0".to_vec());
    assert_eq!(terminate_hostname(b"host"), b"host\0".to_vec());
    assert_eq!(terminate_hostname(b""), vec![0u8]);
    assert_eq!(wm_class_bytes("demo", "OpenGMK"), b"demo\0OpenGMK\0".to_vec());
    assert_eq!(instance_name(Some("res".to_string()), Some("prog".to_string())), "res");
    assert_eq!(instance_name(None, Some("prog".to_string())), "prog");
    assert_eq!(instance_name(None, None), "unknown");
}
