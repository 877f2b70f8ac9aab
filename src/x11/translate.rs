use vstd::prelude::*;
use crate::buffer::EventBuffer;
use crate::chars::{char_from_u32, is_scalar};
use crate::event::{CloseReason, Event};
use crate::input::MouseButton;
use crate::x11::keysym::{keysym_key, keysym_to_key};
use crate::x11::setup::Atoms;
use crate::x11::state::{WmState, lemma_same_state_is_silent, reconcile_wm_state, wm_state_events};
use crate::x11::wire::{
    CLIENT_MESSAGE, Notification, client_message_bytes, decoded, encode_client_message, le32, le32_bytes,
    lemma_le32_bytes, target_of,
};

verus! {

/// A window's cached derived state: what the server last reported of it,
/// kept to turn repeated reports into change events.
#[derive(Clone, Copy, Debug, PartialEq, Eq)]
pub struct Cache {
    pub handle: u32,
    pub parent: u32,
    pub position: (i16, i16),
    pub size: (u16, u16),
    pub wm: WmState,
}

/// What the server must be asked before a notification can be translated.
#[derive(Clone, Copy, Debug, PartialEq, Eq)]
pub enum Query {
    Nothing,
    /// Where the window's origin lies relative to the root window.
    RootCoordinates,
    /// The current value of the window's composite state property.
    StateProperty,
    /// The keysyms of a key, without and with the modifiers, and the
    /// character the modified keysym stands for.
    KeySymbols { keycode: u32, modifiers: u32 },
}

/// The server's answer to a `Query`; `None` inside marks a failed request.
#[derive(Clone, Debug, PartialEq, Eq)]
pub enum Answer {
    Nothing,
    RootCoordinates(Option<(i16, i16)>),
    StateProperty(Option<Vec<u32>>),
    /// `text` is the code point of the modified keysym, 0 when it has none.
    KeySymbols { unmodified: u64, modified: u64, text: u32 },
}

/// The composite state that a list of state atoms reports.
pub open spec fn wm_state_of(list: Seq<u32>, atoms: Atoms) -> WmState {
    WmState {
        maximised_horz: list.contains(atoms.net_wm_state_maximized_horz),
        maximised_vert: list.contains(atoms.net_wm_state_maximized_vert),
        minimised: list.contains(atoms.net_wm_state_hidden),
    }
}

/// Reads the composite state out of the atoms of the state property.
pub fn wm_state_from_atoms(list: &[u32], atoms: &Atoms) -> (r: WmState)
    ensures
        r == wm_state_of(list@, *atoms),
{
    let mut r = WmState::normal();
    let mut i: usize = 0;
    while i < list.len()
        invariant
            i <= list@.len(),
            r.maximised_horz == list@.take(i as int).contains(atoms.net_wm_state_maximized_horz),
            r.maximised_vert == list@.take(i as int).contains(atoms.net_wm_state_maximized_vert),
            r.minimised == list@.take(i as int).contains(atoms.net_wm_state_hidden),
        decreases list@.len() - i,
    {
        let a = list[i];
        proof {
            let s = list@.take(i as int);
            let t = list@.take(i as int + 1);
            assert(t =~= s.push(a));
            assert forall|x: u32| t.contains(x) <==> (s.contains(x) || x == a) by {
                if t.contains(x) {
                    let j = choose|j: int| 0 <= j < t.len() && t[j] == x;
                    if j < s.len() {
                        assert(s[j] == x);
                    }
                }
                if s.contains(x) {
                    let j = choose|j: int| 0 <= j < s.len() && s[j] == x;
                    assert(t[j] == x);
                }
                if x == a {
                    assert(t[i as int] == x);
                }
            }
        }
        if a == atoms.net_wm_state_maximized_horz {
            r.maximised_horz = true;
        }
        if a == atoms.net_wm_state_maximized_vert {
            r.maximised_vert = true;
        }
        if a == atoms.net_wm_state_hidden {
            r.minimised = true;
        }
        i = i + 1;
    }
    assert(list@.take(list@.len() as int) =~= list@);
    r
}

/// What must be asked of the server before `n` can be translated for a
/// window with cache `c`; `root` is the root window.
pub open spec fn query_of(c: Cache, n: Notification, atoms: Atoms, root: u32) -> Query {
    match n {
        Notification::Configure { synthetic, .. } =>
            if !synthetic && c.parent != root { Query::RootCoordinates } else { Query::Nothing },
        Notification::Property { atom, state, .. } =>
            if atom == atoms.net_wm_state && state == 0 { Query::StateProperty } else { Query::Nothing },
        Notification::Key { keycode, modifiers, .. } => Query::KeySymbols { keycode, modifiers },
        _ => Query::Nothing,
    }
}

/// The root coordinates an answer carries, if it is of that kind and succeeded.
pub open spec fn answered_coordinates(a: Answer) -> Option<(i16, i16)> {
    match a {
        Answer::RootCoordinates(p) => p,
        _ => None,
    }
}

/// The state atoms an answer carries, if it is of that kind and succeeded.
pub open spec fn answered_state(a: Answer) -> Option<Seq<u32>> {
    match a {
        Answer::StateProperty(Some(v)) => Some(v@),
        _ => None,
    }
}

/// Events and new cache for a configure notification: a size change gives
/// `Resize`; the position, translated to root coordinates when the window
/// sits in a frame and the record is not synthetic, gives `Move` when it
/// changed. Without a translation the position is left as it was.
pub open spec fn configured(c: Cache, x: i16, y: i16, width: u16, height: u16, synthetic: bool, root: u32, a: Answer) -> (Seq<Event>, Cache) {
    let size_events = if c.size != (width, height) { seq![Event::Resize((width, height))] } else { seq![] };
    let c1 = Cache { size: (width, height), ..c };
    let pos = if !synthetic && c.parent != root { answered_coordinates(a) } else { Some((x, y)) };
    match pos {
        Some(p) => if c1.position != p {
            (size_events.push(Event::Move(p)), Cache { position: p, ..c1 })
        } else {
            (size_events, c1)
        },
        None => (size_events, c1),
    }
}

/// Events for a key notification, given the answered keysyms.
pub open spec fn keyed(pressed: bool, repeat: bool, a: Answer) -> Seq<Event> {
    match a {
        Answer::KeySymbols { unmodified, modified, text } => {
            let key_events = match keysym_key(unmodified as int, modified as int) {
                Some(k) => if !pressed {
                    seq![Event::KeyboardUp(k)]
                } else if repeat {
                    seq![Event::KeyboardRepeat(k)]
                } else {
                    seq![Event::KeyboardDown(k)]
                },
                None => seq![],
            };
            if pressed && text != 0 && is_scalar(text) {
                key_events.push(Event::Input(text as char))
            } else {
                key_events
            }
        },
        _ => seq![],
    }
}

/// The button a button number of the core pointer stands for.
pub open spec fn button_of(b: u32) -> Option<MouseButton> {
    if b == 1 { Some(MouseButton::Left) }
    else if b == 2 { Some(MouseButton::Middle) }
    else if b == 3 { Some(MouseButton::Right) }
    else { None }
}

/// The events that notification `n` yields for a window with cache `c`, and
/// the cache after it; `a` is the server's answer to `query_of`.
pub open spec fn translated(c: Cache, n: Notification, atoms: Atoms, root: u32, a: Answer) -> (Seq<Event>, Cache) {
    match n {
        Notification::ClientMessage { format, message_type, data, .. } =>
            if message_type == atoms.wm_protocols && format == 32 && data[0] == atoms.wm_delete_window {
                (seq![Event::CloseRequest(CloseReason::Unknown)], c)
            } else {
                (seq![], c)
            },
        Notification::Focus { focused, .. } => (seq![Event::Focus(focused)], c),
        Notification::InputFocus { focused, .. } => (seq![Event::Focus(focused)], c),
        Notification::Mapped { .. } => (seq![Event::Visible(true)], c),
        Notification::Unmapped { .. } => (seq![Event::Visible(false)], c),
        Notification::Reparent { parent, .. } => (seq![], Cache { parent, ..c }),
        Notification::Configure { x, y, width, height, synthetic, .. } =>
            configured(c, x, y, width, height, synthetic, root, a),
        Notification::Property { atom, state, .. } =>
            if atom != atoms.net_wm_state {
                (seq![], c)
            } else if state == 0 {
                match answered_state(a) {
                    Some(list) => {
                        let w = wm_state_of(list, atoms);
                        (wm_state_events(c.wm, w), Cache { wm: w, ..c })
                    },
                    None => (seq![], c),
                }
            } else if state == 1 {
                let w = WmState { maximised_horz: false, maximised_vert: false, minimised: false };
                (wm_state_events(c.wm, w), Cache { wm: w, ..c })
            } else {
                (seq![], c)
            },
        Notification::Key { pressed, repeat, .. } => (keyed(pressed, repeat, a), c),
        Notification::Button { pressed, button, .. } => match button_of(button) {
            Some(b) => (seq![if pressed { Event::MouseDown(b) } else { Event::MouseUp(b) }], c),
            None => (seq![], c),
        },
        Notification::Motion { pointer_x, pointer_y, .. } => (seq![Event::MouseMove((pointer_x, pointer_y))], c),
        Notification::Enter { .. } => (seq![Event::MouseEnter], c),
        Notification::Leave { .. } => (seq![Event::MouseLeave], c),
        Notification::Other => (seq![], c),
    }
}

/// The record to send to the root window in reply to a ping from the window
/// manager: the ping itself, readdressed to the root.
pub open spec fn ping_reply(n: Notification, atoms: Atoms, root: u32) -> Option<Seq<u8>> {
    match n {
        Notification::ClientMessage { format, message_type, data, .. } =>
            if message_type == atoms.wm_protocols && format == 32 && data[0] != atoms.wm_delete_window
                && data[0] == atoms.net_wm_ping {
                Some(client_message_bytes(root, message_type, data@))
            } else {
                None
            },
        _ => None,
    }
}

/// The size a notification reports, if it reports one.
pub open spec fn reported_size(n: Notification) -> Option<(u16, u16)> {
    match n {
        Notification::Configure { width, height, .. } => Some((width, height)),
        _ => None,
    }
}

/// The composite state a notification reports together with its answer,
/// if it reports one: the fetched atoms of a new value, or the normal
/// state for a deleted property.
pub open spec fn reported_wm_state(n: Notification, atoms: Atoms, a: Answer) -> Option<WmState> {
    match n {
        Notification::Property { atom, state, .. } =>
            if atom != atoms.net_wm_state {
                None
            } else if state == 0 {
                match answered_state(a) {
                    Some(list) => Some(wm_state_of(list, atoms)),
                    None => None,
                }
            } else if state == 1 {
                Some(WmState { maximised_horz: false, maximised_vert: false, minimised: false })
            } else {
                None
            },
        _ => None,
    }
}

/// The cache after translating `steps` in order, starting from `c`.
pub open spec fn run(c: Cache, steps: Seq<(Notification, Answer)>, atoms: Atoms, root: u32) -> Cache
    decreases steps.len(),
{
    if steps.len() == 0 {
        c
    } else {
        translated(run(c, steps.drop_last(), atoms, root), steps.last().0, atoms, root, steps.last().1).1
    }
}

/// The size last reported in `steps`, or `initial` when none reports one.
pub open spec fn last_size(initial: (u16, u16), steps: Seq<(Notification, Answer)>) -> (u16, u16)
    decreases steps.len(),
{
    if steps.len() == 0 {
        initial
    } else {
        match reported_size(steps.last().0) {
            Some(s) => s,
            None => last_size(initial, steps.drop_last()),
        }
    }
}

/// The composite state last reported in `steps`, or `initial` when none
/// reports one.
pub open spec fn last_wm_state(initial: WmState, steps: Seq<(Notification, Answer)>, atoms: Atoms) -> WmState
    decreases steps.len(),
{
    if steps.len() == 0 {
        initial
    } else {
        match reported_wm_state(steps.last().0, atoms, steps.last().1) {
            Some(w) => w,
            None => last_wm_state(initial, steps.drop_last(), atoms),
        }
    }
}

/// The desktop position a configure notification reports for a window
/// whose parent is `parent`, if it can be known: the record's own for a
/// synthetic record or a window without frame, else the answered
/// translation.
pub open spec fn reported_position(parent: u32, n: Notification, root: u32, a: Answer) -> Option<(i16, i16)> {
    match n {
        Notification::Configure { x, y, synthetic, .. } =>
            if !synthetic && parent != root { answered_coordinates(a) } else { Some((x, y)) },
        _ => None,
    }
}

/// The position last reported in `steps`, starting from cache `c`.
pub open spec fn last_position(c: Cache, steps: Seq<(Notification, Answer)>, atoms: Atoms, root: u32) -> (i16, i16)
    decreases steps.len(),
{
    if steps.len() == 0 {
        c.position
    } else {
        match reported_position(run(c, steps.drop_last(), atoms, root).parent, steps.last().0, root, steps.last().1) {
            Some(p) => p,
            None => last_position(c, steps.drop_last(), atoms, root),
        }
    }
}

/// The parent last reported in `steps`, or `initial` when none reports one.
pub open spec fn last_parent(initial: u32, steps: Seq<(Notification, Answer)>) -> u32
    decreases steps.len(),
{
    if steps.len() == 0 {
        initial
    } else {
        match steps.last().0 {
            Notification::Reparent { parent, .. } => parent,
            _ => last_parent(initial, steps.drop_last()),
        }
    }
}

/// Whatever notifications arrive, and whatever requests the program made
/// before them, the cached size, position, parent and composite state after
/// translation are the ones the server reported last.
pub proof fn lemma_cache_follows_last_report(c: Cache, steps: Seq<(Notification, Answer)>, atoms: Atoms, root: u32)
    ensures
        run(c, steps, atoms, root).size == last_size(c.size, steps),
        run(c, steps, atoms, root).position == last_position(c, steps, atoms, root),
        run(c, steps, atoms, root).parent == last_parent(c.parent, steps),
        run(c, steps, atoms, root).wm == last_wm_state(c.wm, steps, atoms),
    decreases steps.len(),
{
    if steps.len() > 0 {
        lemma_cache_follows_last_report(c, steps.drop_last(), atoms, root);
    }
}

/// A composite-state notification delivered a second time in a row, with
/// the same answer, yields no event: the first delivery recorded the state.
pub proof fn lemma_repeated_state_notification_is_silent(c: Cache, n: Notification, atoms: Atoms, root: u32, a: Answer)
    requires
        n is Property,
    ensures
        translated(translated(c, n, atoms, root, a).1, n, atoms, root, a).0 == Seq::<Event>::empty(),
{
    match reported_wm_state(n, atoms, a) {
        Some(w) => lemma_same_state_is_silent(w),
        None => {},
    }
}

/// A configure notification delivered a second time in a row yields no
/// `Resize`: the first delivery recorded the size.
pub proof fn lemma_repeated_configure_has_no_resize(c: Cache, n: Notification, atoms: Atoms, root: u32, a: Answer)
    requires
        n is Configure,
    ensures
        forall|i: int| 0 <= i < translated(translated(c, n, atoms, root, a).1, n, atoms, root, a).0.len()
            ==> !(#[trigger] translated(translated(c, n, atoms, root, a).1, n, atoms, root, a).0[i] is Resize),
{
}

/// The record of a delete-window message for window `w`, as the client
/// library hands it over: `first` is the event code with or without the
/// bit of a sent event, `tail` the widened sequence number.
pub open spec fn delete_record(w: u32, atoms: Atoms, first: u8, tail: Seq<u8>) -> Seq<u8> {
    seq![first] + client_message_bytes(w, atoms.wm_protocols, seq![atoms.wm_delete_window, 0u32, 0u32, 0u32, 0u32]).drop_first() + tail
}

proof fn lemma_word_at(rec: Seq<u8>, at: int, v: u32)
    requires
        0 <= at,
        at + 4 <= rec.len(),
        rec.subrange(at, at + 4) == le32_bytes(v),
    ensures
        le32(rec, at) == v,
{
    lemma_le32_bytes(v);
    let b = le32_bytes(v);
    assert(rec[at] == b[0] && rec[at + 1] == b[1] && rec[at + 2] == b[2] && rec[at + 3] == b[3]) by {
        assert(rec.subrange(at, at + 4)[0] == rec[at]);
        assert(rec.subrange(at, at + 4)[1] == rec[at + 1]);
        assert(rec.subrange(at, at + 4)[2] == rec[at + 2]);
        assert(rec.subrange(at, at + 4)[3] == rec[at + 3]);
    }
}

/// A delete-window message sent for window `w` is addressed to `w`, and
/// translating it for that window yields exactly one close request and
/// leaves the cache as it was.
pub proof fn lemma_close_round_trip(c: Cache, w: u32, atoms: Atoms, root: u32, a: Answer, first: u8, tail: Seq<u8>, xinput: Option<u8>)
    requires
        first % 128 == CLIENT_MESSAGE,
        tail.len() == 4,
    ensures
        target_of(decoded(delete_record(w, atoms, first, tail), xinput)) == Some(w),
        translated(c, decoded(delete_record(w, atoms, first, tail), xinput), atoms, root, a)
            == (seq![Event::CloseRequest(CloseReason::Unknown)], c),
{
    let rec = delete_record(w, atoms, first, tail);
    let full = client_message_bytes(w, atoms.wm_protocols, seq![atoms.wm_delete_window, 0u32, 0u32, 0u32, 0u32]);
    assert(rec.len() == 36);
    assert(rec[1] == 32u8);
    assert(rec.subrange(4, 8) =~= le32_bytes(w));
    assert(rec.subrange(8, 12) =~= le32_bytes(atoms.wm_protocols));
    assert(rec.subrange(12, 16) =~= le32_bytes(atoms.wm_delete_window));
    lemma_word_at(rec, 4, w);
    lemma_word_at(rec, 8, atoms.wm_protocols);
    lemma_word_at(rec, 12, atoms.wm_delete_window);
    assert((rec[0] as int) % 128 == CLIENT_MESSAGE);
}

/// A window's translation state: its cached derived state and its double
/// buffer of events.
pub struct XWindow {
    pub cache: Cache,
    pub buffer: EventBuffer,
}

impl XWindow {
    /// A window just created with the given id, parent, position and size,
    /// in the normal composite state and with empty buffers.
    pub fn new(handle: u32, parent: u32, position: (i16, i16), size: (u16, u16)) -> (r: XWindow)
        ensures
            r.cache == (Cache { handle, parent, position, size, wm: WmState { maximised_horz: false, maximised_vert: false, minimised: false } }),
            r.buffer.batch() == Seq::<Event>::empty(),
            r.buffer.pending() == Seq::<Event>::empty(),
    {
        XWindow { cache: Cache { handle, parent, position, size, wm: WmState::normal() }, buffer: EventBuffer::new() }
    }

    /// What must be asked of the server before `n` can be translated.
    pub fn query_for(&self, n: &Notification, atoms: &Atoms, root: u32) -> (r: Query)
        ensures
            r == query_of(self.cache, *n, *atoms, root),
    {
        match *n {
            Notification::Configure { synthetic, .. } =>
                if !synthetic && self.cache.parent != root { Query::RootCoordinates } else { Query::Nothing },
            Notification::Property { atom, state, .. } =>
                if atom == atoms.net_wm_state && state == 0 { Query::StateProperty } else { Query::Nothing },
            Notification::Key { keycode, modifiers, .. } => Query::KeySymbols { keycode, modifiers },
            _ => Query::Nothing,
        }
    }

    fn push_all(&mut self, events: Vec<Event>)
        ensures
            final(self).buffer.pending() == old(self).buffer.pending() + events@,
            final(self).buffer.batch() == old(self).buffer.batch(),
            final(self).cache == old(self).cache,
    {
        let mut i: usize = 0;
        while i < events.len()
            invariant
                i <= events@.len(),
                self.buffer.pending() == old(self).buffer.pending() + events@.take(i as int),
                self.buffer.batch() == old(self).buffer.batch(),
                self.cache == old(self).cache,
            decreases events@.len() - i,
        {
            self.buffer.push(events[i]);
            assert(events@.take(i as int + 1) =~= events@.take(i as int).push(events@[i as int]));
            i = i + 1;
        }
        assert(events@.take(events@.len() as int) =~= events@);
    }

    fn configure(&mut self, x: i16, y: i16, width: u16, height: u16, synthetic: bool, root: u32, answer: &Answer)
        ensures
            ({
                let (evs, c) = configured(old(self).cache, x, y, width, height, synthetic, root, *answer);
                &&& final(self).cache == c
                &&& final(self).buffer.pending() == old(self).buffer.pending() + evs
                &&& final(self).buffer.batch() == old(self).buffer.batch()
            }),
    {
        let ghost c0 = self.cache;
        let ghost gathered = self.buffer.pending();
        if self.cache.size.0 != width || self.cache.size.1 != height {
            self.cache.size = (width, height);
            self.buffer.push(Event::Resize((width, height)));
        }
        let pos = if !synthetic && self.cache.parent != root {
            match answer {
                Answer::RootCoordinates(p) => *p,
                _ => None,
            }
        } else {
            Some((x, y))
        };
        if let Some(p) = pos {
            if self.cache.position.0 != p.0 || self.cache.position.1 != p.1 {
                self.cache.position = p;
                self.buffer.push(Event::Move(p));
            }
        }
        proof {
            let (evs, c) = configured(c0, x, y, width, height, synthetic, root, *answer);
            assert(self.buffer.pending() =~= gathered + evs);
        }
    }

    fn key(&mut self, pressed: bool, repeat: bool, answer: &Answer)
        ensures
            final(self).cache == old(self).cache,
            final(self).buffer.pending() == old(self).buffer.pending() + keyed(pressed, repeat, *answer),
            final(self).buffer.batch() == old(self).buffer.batch(),
    {
        let ghost gathered = self.buffer.pending();
        if let Answer::KeySymbols { unmodified, modified, text } = answer {
            match keysym_to_key(*unmodified, *modified) {
                Some(k) => {
                    let e = if !pressed {
                        Event::KeyboardUp(k)
                    } else if repeat {
                        Event::KeyboardRepeat(k)
                    } else {
                        Event::KeyboardDown(k)
                    };
                    self.buffer.push(e);
                },
                None => {},
            }
            if pressed && *text != 0 {
                if let Some(ch) = char_from_u32(*text) {
                    self.buffer.push(Event::Input(ch));
                }
            }
        }
        assert(self.buffer.pending() =~= gathered + keyed(pressed, repeat, *answer));
    }

    fn set_wm_state(&mut self, w: WmState)
        ensures
            final(self).cache == (Cache { wm: w, ..old(self).cache }),
            final(self).buffer.pending() == old(self).buffer.pending() + wm_state_events(old(self).cache.wm, w),
            final(self).buffer.batch() == old(self).buffer.batch(),
    {
        let events = reconcile_wm_state(self.cache.wm, w);
        self.push_all(events);
        self.cache.wm = w;
    }

    /// Translates notification `n`, given the server's `answer` to the query
    /// that `query_for` named, into events appended to the pending side of
    /// the buffer, and updates the cache. Returns the record to send to the
    /// root window when `n` is a ping from the window manager.
    pub fn process(&mut self, n: &Notification, atoms: &Atoms, root: u32, answer: &Answer) -> (r: Option<Vec<u8>>)
        ensures
            ({
                let (evs, c) = translated(old(self).cache, *n, *atoms, root, *answer);
                &&& final(self).cache == c
                &&& final(self).buffer.pending() == old(self).buffer.pending() + evs
                &&& final(self).buffer.batch() == old(self).buffer.batch()
            }),
            match (r, ping_reply(*n, *atoms, root)) {
                (Some(b), Some(s)) => b@ == s,
                (None, None) => true,
                _ => false,
            },
    {
        let ghost gathered = self.buffer.pending();
        match *n {
            Notification::ClientMessage { format, message_type, data, .. } => {
                if message_type == atoms.wm_protocols && format == 32 {
                    if data[0] == atoms.wm_delete_window {
                        self.buffer.push(Event::CloseRequest(CloseReason::Unknown));
                    } else if data[0] == atoms.net_wm_ping {
                        assert(self.buffer.pending() =~= gathered + translated(old(self).cache, *n, *atoms, root, *answer).0);
                        return Some(encode_client_message(root, message_type, data));
                    }
                }
            },
            Notification::Focus { focused, .. } => self.buffer.push(Event::Focus(focused)),
            Notification::InputFocus { focused, .. } => self.buffer.push(Event::Focus(focused)),
            Notification::Mapped { .. } => self.buffer.push(Event::Visible(true)),
            Notification::Unmapped { .. } => self.buffer.push(Event::Visible(false)),
            Notification::Reparent { parent, .. } => self.cache.parent = parent,
            Notification::Configure { x, y, width, height, synthetic, .. } => {
                self.configure(x, y, width, height, synthetic, root, answer);
            },
            Notification::Property { atom, state, .. } => {
                if atom == atoms.net_wm_state {
                    if state == 0 {
                        if let Answer::StateProperty(Some(list)) = answer {
                            let w = wm_state_from_atoms(list.as_slice(), atoms);
                            self.set_wm_state(w);
                        }
                    } else if state == 1 {
                        self.set_wm_state(WmState::normal());
                    }
                }
            },
            Notification::Key { pressed, repeat, .. } => self.key(pressed, repeat, answer),
            Notification::Button { pressed, button, .. } => {
                let b = if button == 1 {
                    Some(MouseButton::Left)
                } else if button == 2 {
                    Some(MouseButton::Middle)
                } else if button == 3 {
                    Some(MouseButton::Right)
                } else {
                    None
                };
                if let Some(b) = b {
                    self.buffer.push(if pressed { Event::MouseDown(b) } else { Event::MouseUp(b) });
                }
            },
            Notification::Motion { pointer_x, pointer_y, .. } => self.buffer.push(Event::MouseMove((pointer_x, pointer_y))),
            Notification::Enter { .. } => self.buffer.push(Event::MouseEnter),
            Notification::Leave { .. } => self.buffer.push(Event::MouseLeave),
            Notification::Other => {},
        }
        assert(self.buffer.pending() =~= gathered + translated(old(self).cache, *n, *atoms, root, *answer).0);
        None
    }
}

} // verus!
