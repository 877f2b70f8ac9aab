use ramen::buffer::EventBuffer;
use ramen::builder::Builder;
use ramen::decoration::{Controls, Style};
use ramen::error::Error;
use ramen::event::{CloseReason, Event};
use ramen::pending::PendingTable;

#[test]
fn has_send_sync() {
    fn test<T: Send + Sync>() {}

    test::<Error>();
    test::<CloseReason>();
    test::<Event>();
    test::<Builder<()>>();
    test::<Controls>();
    test::<Style>();
}

#[test]
fn buffer_flip_hands_out_gathered_events() {
    let mut b = EventBuffer::new();
    assert!(b.events().is_empty());
    b.push(Event::Focus(true));
    b.push(Event::Visible(false));
    assert!(b.events().is_empty());
    b.flip();
    assert_eq!(b.events(), &[Event::Focus(true), Event::Visible(false)]);
    b.push(Event::MouseEnter);
    assert_eq!(b.events(), &[Event::Focus(true), Event::Visible(false)]);
    b.flip();
    assert_eq!(b.events(), &[Event::MouseEnter]);
    b.flip();
    assert!(b.events().is_empty());
}

#[test]
fn routing_keeps_other_windows_events() {
    let mut t: PendingTable<u32> = PendingTable::new();
    t.register(1);
    t.register(2);
    // window 1 polls and drains an event for window 2
    assert_eq!(t.route(1, Some(2), 10), None);
    assert_eq!(t.route(1, Some(1), 11), Some(11));
    assert_eq!(t.route(1, None, 12), None);
    assert_eq!(t.route(1, Some(3), 13), None);
    assert_eq!(t.take(1), Vec::<u32>::new());
    assert_eq!(t.take(2), vec![10]);
    assert_eq!(t.take(2), Vec::<u32>::new());
}

#[test]
fn routing_keeps_order_within_a_window() {
    let mut t: PendingTable<u32> = PendingTable::new();
    t.register(5);
    t.register(6);
    for e in [1u32, 2, 3] {
        assert_eq!(t.route(6, Some(5), e), None);
    }
    assert_eq!(t.take(5), vec![1, 2, 3]);
}

#[test]
fn release_drops_slot_and_register_clears_stale_events() {
    let mut t: PendingTable<u32> = PendingTable::new();
    t.register(7);
    assert!(t.store(7, 1));
    t.release(7);
    assert!(!t.is_registered(7));
    assert!(!t.store(7, 2));
    assert_eq!(t.take(7), Vec::<u32>::new());
    t.register(7);
    assert!(t.store(7, 3));
    t.register(7);
    assert_eq!(t.take(7), Vec::<u32>::new());
}

#[test]
fn controls_and_style_defaults() {
    let c = Controls::new();
    assert!(c.close && c.maximise && c.minimise);
    assert_eq!(Controls::default(), c);
    let c2 = c.close(false).maximise(false);
    assert!(!c2.close && !c2.maximise && c2.minimise);
    assert!(!c.minimise(false).minimise);
    let s = Style::new();
    assert!(!s.borderless && s.resizable && s.visible);
    assert_eq!(s.controls, Some(Controls::new()));
    assert_eq!(Style::default(), s);
    let s2 = s.borderless(true).controls(None).resizable(false).visible(false);
    assert!(s2.borderless && !s2.resizable && !s2.visible);
    assert_eq!(s2.controls, None);
}

#[test]
fn builder_defaults_and_setters() {
    let b = Builder::new((), None);
    assert_eq!(b.class_name, "ramen_window");
    assert_eq!(b.title, "a nice window");
    assert_eq!(b.size, (800, 600));
    assert_eq!(b.position, None);
    assert!(!b.maximised);
    assert_eq!(b.style, Style::new());
    let b = b
        .borderless(true)
        .class_name("OpenGMK")
        .title("simple window")
        .resizable(false)
        .maximised(true)
        .position(Some((-5, 7)))
        .size((800, 608))
        .visible(false)
        .controls(None);
    assert!(b.style.borderless && !b.style.resizable && !b.style.visible);
    assert_eq!(b.style.controls, None);
    assert_eq!(b.class_name, "OpenGMK");
    assert_eq!(b.title, "simple window");
    assert!(b.maximised);
    assert_eq!(b.position, Some((-5, 7)));
    assert_eq!(b.size, (800, 608));
    let custom = Style::new().visible(false);
    assert_eq!(Builder::new(1u8, Some(custom)).style, custom);
    let c = b.clone();
    assert_eq!(c.title, "simple window");
    assert_eq!(c.size, (800, 608));
}
