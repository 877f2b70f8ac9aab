use vstd::prelude::*;
use crate::event::Event;

verus! {

/// The composite window state that the window manager reports as a set of
/// state atoms: the two maximise axes and the hidden (minimised) flag.
#[derive(Clone, Copy, Debug, PartialEq, Eq, Structural)]
pub struct WmState {
    pub maximised_horz: bool,
    pub maximised_vert: bool,
    pub minimised: bool,
}

impl WmState {
    /// Neither maximised on any axis nor minimised.
    pub fn normal() -> (r: WmState)
        ensures
            !r.maximised_horz && !r.maximised_vert && !r.minimised,
    {
        WmState { maximised_horz: false, maximised_vert: false, minimised: false }
    }

    /// Maximised on both axes. A window maximised on one axis only counts
    /// as not maximised.
    pub open spec fn fully_maximised(self) -> bool {
        self.maximised_horz && self.maximised_vert
    }

    /// Whether the caller sees the window as maximised: fully maximised and
    /// not minimised, since a window is never seen as both at once.
    pub open spec fn shown_maximised(self) -> bool {
        self.fully_maximised() && !self.minimised
    }
}

/// The events that report the change from `old` to `new`, as seen by the
/// caller: un-maximising comes before minimising, and un-minimising before
/// maximising.
pub open spec fn wm_state_events(old: WmState, new: WmState) -> Seq<Event> {
    (if old.shown_maximised() && !new.shown_maximised() { seq![Event::Maximise(false)] } else { seq![] })
    + (if old.minimised != new.minimised { seq![Event::Minimise(new.minimised)] } else { seq![] })
    + (if !old.shown_maximised() && new.shown_maximised() { seq![Event::Maximise(true)] } else { seq![] })
}

/// Compares a newly reported state with the last recorded one and returns
/// the events that report the difference.
pub fn reconcile_wm_state(old: WmState, new: WmState) -> (r: Vec<Event>)
    ensures
        r@ == wm_state_events(old, new),
{
    let old_full = old.maximised_horz && old.maximised_vert;
    let new_full = new.maximised_horz && new.maximised_vert;
    let mut events: Vec<Event> = Vec::new();
    if new.minimised && !old.minimised {
        if old_full {
            events.push(Event::Maximise(false));
        }
        events.push(Event::Minimise(true));
    } else if !new.minimised && old.minimised {
        events.push(Event::Minimise(false));
        if new_full {
            events.push(Event::Maximise(true));
        }
    } else if !new.minimised {
        if new_full && !old_full {
            events.push(Event::Maximise(true));
        } else if !new_full && old_full {
            events.push(Event::Maximise(false));
        }
    }
    assert(events@ =~= wm_state_events(old, new));
    events
}

/// What the caller knows after seeing `events`, starting from knowing that
/// the window is (`maximised`, `minimised`).
pub open spec fn replay(maximised: bool, minimised: bool, events: Seq<Event>) -> (bool, bool)
    decreases events.len(),
{
    if events.len() == 0 {
        (maximised, minimised)
    } else {
        let (m, n) = match events[0] {
            Event::Maximise(b) => (b, minimised),
            Event::Minimise(b) => (maximised, b),
            _ => (maximised, minimised),
        };
        replay(m, n, events.drop_first())
    }
}

/// Reporting the state that is already recorded yields no event, so a
/// notification delivered twice in a row is reported once.
pub proof fn lemma_same_state_is_silent(s: WmState)
    ensures
        wm_state_events(s, s) == Seq::<Event>::empty(),
{
    assert(wm_state_events(s, s) =~= Seq::<Event>::empty());
}

/// Replaying the events of a change on what the caller saw of the old state
/// gives what it should see of the new one, and at no point in between does
/// the caller see the window maximised and minimised at once.
pub proof fn lemma_events_track_state(old: WmState, new: WmState)
    ensures
        replay(old.shown_maximised(), old.minimised, wm_state_events(old, new))
            == (new.shown_maximised(), new.minimised),
        forall|k: int| 0 <= k <= wm_state_events(old, new).len() ==> {
            let seen = #[trigger] replay(old.shown_maximised(), old.minimised, wm_state_events(old, new).take(k));
            !(seen.0 && seen.1)
        },
{
    let evs = wm_state_events(old, new);
    let m0 = old.shown_maximised();
    let n0 = old.minimised;
    reveal_with_fuel(replay, 4);
    assert forall|k: int| 0 <= k <= evs.len() implies {
        let seen = #[trigger] replay(m0, n0, evs.take(k));
        !(seen.0 && seen.1)
    } by {
        let t = evs.take(k);
        if k >= 1 {
            assert(t.drop_first() =~= evs.drop_first().take(k - 1));
        }
        if k >= 2 {
            assert(t.drop_first().drop_first() =~= evs.drop_first().drop_first().take(k - 2));
        }
        if k == 0 {
            assert(t =~= Seq::<Event>::empty());
        }
    }
}

} // verus!
