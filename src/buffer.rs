use vstd::prelude::*;
use crate::event::Event;

verus! {

/// A window's double buffer of events: `batch` is what the last poll handed
/// to the caller, `pending` collects what has been translated since.
pub struct EventBuffer {
    front: Vec<Event>,
    back: Vec<Event>,
}

impl EventBuffer {
    /// The batch handed out by the last poll.
    pub closed spec fn batch(&self) -> Seq<Event> {
        self.front@
    }

    /// The events gathered since the last poll, oldest first.
    pub closed spec fn pending(&self) -> Seq<Event> {
        self.back@
    }

    /// An empty buffer.
    pub fn new() -> (r: EventBuffer)
        ensures
            r.batch() == Seq::<Event>::empty(),
            r.pending() == Seq::<Event>::empty(),
    {
        EventBuffer { front: Vec::new(), back: Vec::new() }
    }

    /// Appends one event behind those already gathered.
    pub fn push(&mut self, event: Event)
        ensures
            final(self).pending() == old(self).pending().push(event),
            final(self).batch() == old(self).batch(),
    {
        self.back.push(event);
    }

    /// Ends a batch: the gathered events become the batch, and gathering
    /// starts again from nothing.
    pub fn flip(&mut self)
        ensures
            final(self).batch() == old(self).pending(),
            final(self).pending() == Seq::<Event>::empty(),
    {
        self.front.clear();
        std::mem::swap(&mut self.front, &mut self.back);
    }

    /// The batch handed out by the last poll.
    pub fn events(&self) -> (r: &[Event])
        ensures
            r@ == self.batch(),
    {
        self.front.as_slice()
    }
}

} // verus!
