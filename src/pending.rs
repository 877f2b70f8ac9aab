use vstd::prelude::*;
use std::collections::HashMap;

verus! {

broadcast use vstd::std_specs::hash::group_hash_axioms;

/// Per-window store of events drained from the shared native stream while
/// another window was polling. Each registered window id owns one slot.
pub struct PendingTable<E> {
    slots: HashMap<u32, Vec<E>>,
}

impl<E> PendingTable<E> {
    /// The slots: each registered id with the events waiting for it, oldest first.
    pub closed spec fn slots(&self) -> Map<u32, Seq<E>> {
        self.slots@.map_values(|v: Vec<E>| v@)
    }

    /// A table with no slot.
    pub fn new() -> (r: PendingTable<E>)
        ensures
            r.slots() == Map::<u32, Seq<E>>::empty(),
    {
        let r = PendingTable { slots: HashMap::new() };
        assert(r.slots() =~= Map::<u32, Seq<E>>::empty());
        r
    }

    /// Gives `id` an empty slot, discarding whatever a former holder of the id left.
    pub fn register(&mut self, id: u32)
        ensures
            final(self).slots() == old(self).slots().insert(id, Seq::<E>::empty()),
    {
        let _ = self.slots.insert(id, Vec::new());
        assert(self.slots() =~= old(self).slots().insert(id, Seq::<E>::empty()));
    }

    /// Removes the slot of `id` together with what waits in it.
    pub fn release(&mut self, id: u32)
        ensures
            final(self).slots() == old(self).slots().remove(id),
    {
        let _ = self.slots.remove(&id);
        assert(self.slots() =~= old(self).slots().remove(id));
    }

    /// Whether `id` has a slot.
    pub fn is_registered(&self, id: u32) -> (r: bool)
        ensures
            r == self.slots().contains_key(id),
    {
        self.slots.contains_key(&id)
    }

    /// Empties the slot of `id` and returns what was in it, oldest first;
    /// nothing when `id` has no slot.
    pub fn take(&mut self, id: u32) -> (r: Vec<E>)
        ensures
            old(self).slots().contains_key(id) ==> {
                &&& r@ == old(self).slots()[id]
                &&& final(self).slots() == old(self).slots().insert(id, Seq::<E>::empty())
            },
            !old(self).slots().contains_key(id) ==> {
                &&& r@ == Seq::<E>::empty()
                &&& final(self).slots() == old(self).slots()
            },
    {
        match self.slots.remove(&id) {
            Some(v) => {
                let _ = self.slots.insert(id, Vec::new());
                assert(self.slots() =~= old(self).slots().insert(id, Seq::<E>::empty()));
                v
            },
            None => {
                assert(self.slots() =~= old(self).slots());
                Vec::new()
            },
        }
    }

    /// Appends `event` to the slot of `id`. Returns whether `id` has a slot;
    /// an event for an unregistered id is dropped.
    pub fn store(&mut self, id: u32, event: E) -> (r: bool)
        ensures
            r == old(self).slots().contains_key(id),
            r ==> final(self).slots() == old(self).slots().insert(id, old(self).slots()[id].push(event)),
            !r ==> final(self).slots() == old(self).slots(),
    {
        match self.slots.remove(&id) {
            Some(mut v) => {
                v.push(event);
                let _ = self.slots.insert(id, v);
                assert(self.slots() =~= old(self).slots().insert(id, old(self).slots()[id].push(event)));
                true
            },
            None => {
                assert(self.slots() =~= old(self).slots());
                false
            },
        }
    }

    /// Routes one event drained from the shared stream while window `own`
    /// polls: an event addressed to `own` is handed back to be translated
    /// now; one addressed to another registered window waits in its slot;
    /// any other is dropped.
    pub fn route(&mut self, own: u32, target: Option<u32>, event: E) -> (r: Option<E>)
        ensures
            final(self).slots() == routed(old(self).slots(), own, target, event),
            r == (if target == Some(own) { Some(event) } else { None::<E> }),
    {
        match target {
            Some(id) => {
                if id == own {
                    Some(event)
                } else {
                    let _ = self.store(id, event);
                    None
                }
            },
            None => None,
        }
    }
}

/// The slots after routing `event`, addressed to `target`, while `own` polls.
pub open spec fn routed<E>(slots: Map<u32, Seq<E>>, own: u32, target: Option<u32>, event: E) -> Map<u32, Seq<E>> {
    match target {
        Some(id) => if id != own && slots.contains_key(id) {
            slots.insert(id, slots[id].push(event))
        } else {
            slots
        },
        None => slots,
    }
}

/// An event drained for window `b` while another window `a` polls is not
/// handed to `a`, and it is the last of what `b`'s next take returns, behind
/// everything that already waited for `b`: nothing is lost.
pub proof fn lemma_routing_isolates_windows<E>(slots: Map<u32, Seq<E>>, a: u32, b: u32, event: E)
    requires
        a != b,
        slots.contains_key(b),
    ensures
        routed(slots, a, Some(b), event).contains_key(b),
        routed(slots, a, Some(b), event)[b] == slots[b].push(event),
        routed(slots, a, Some(b), event).remove(b) == slots.remove(b),
{
    assert(routed(slots, a, Some(b), event).remove(b) =~= slots.remove(b));
}

} // verus!
