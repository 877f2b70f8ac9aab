use vstd::prelude::*;
use crate::error::Error;

verus! {

/// Private thread messages of the worker that owns a native window.
pub const CREATE_REQUEST: u32 = 0x0400;
pub const DROP_REQUEST: u32 = 0x0401;
pub const SET_CURSOR_REQUEST: u32 = 0x0402;

/// What the worker does with the result of one pull from its queue.
#[derive(Clone, Copy, Debug, PartialEq, Eq, Structural)]
pub enum LoopStep {
    /// Create the window described by the request and answer through the rendezvous.
    CreateWindow,
    /// Hand the message to the window procedure.
    Dispatch,
    /// A thread message the worker has no use for.
    Ignore,
    /// The queue was told to quit: leave the loop.
    Quit,
    /// The pull itself failed; once the loop runs, this is not recoverable.
    Fatal,
}

/// Classifies a pull: `got` is what the pull returned (positive for a
/// message, 0 for the quit message, -1 for failure), `thread_message`
/// whether the message is addressed to the thread rather than a window.
pub fn classify_pull(got: i32, thread_message: bool, msg: u32) -> (r: LoopStep)
    ensures
        got == 0 ==> r == LoopStep::Quit,
        got < 0 ==> r == LoopStep::Fatal,
        got > 0 && !thread_message ==> r == LoopStep::Dispatch,
        got > 0 && thread_message && msg == CREATE_REQUEST ==> r == LoopStep::CreateWindow,
        got > 0 && thread_message && msg != CREATE_REQUEST ==> r == LoopStep::Ignore,
{
    if got == 0 {
        LoopStep::Quit
    } else if got < 0 {
        LoopStep::Fatal
    } else if !thread_message {
        LoopStep::Dispatch
    } else if msg == CREATE_REQUEST {
        LoopStep::CreateWindow
    } else {
        LoopStep::Ignore
    }
}

/// The outcome of a creation attempt on the worker: registering the window
/// class failed, or the system returned handle `hwnd` (0 for none). The
/// system gives no reason in either case; running out of resources is the
/// likely one.
pub open spec fn creation_outcome(registration_failed: bool, hwnd: usize) -> Result<usize, Error> {
    if registration_failed || hwnd == 0 { Err(Error::SystemResources) } else { Ok(hwnd) }
}

/// The slot through which a worker hands the result of creating a window
/// to the thread that asked for it. It is resolved at most once; a resolved
/// success always holds a valid (non-zero) handle.
pub struct Rendezvous {
    slot: Option<Result<usize, Error>>,
    taken: bool,
}

impl Rendezvous {
    #[verifier::type_invariant]
    spec fn holds_valid_handle(self) -> bool {
        &&& (self.slot matches Some(Ok(h)) ==> h != 0)
        &&& (self.taken ==> self.slot is None)
    }

    /// The result waiting to be taken, if the worker has resolved the slot.
    pub closed spec fn outcome(&self) -> Option<Result<usize, Error>> {
        self.slot
    }

    /// Whether the result has already been taken.
    pub closed spec fn is_taken(&self) -> bool {
        self.taken
    }

    /// An unresolved slot.
    pub fn new() -> (r: Rendezvous)
        ensures
            r.outcome() is None,
            !r.is_taken(),
    {
        Rendezvous { slot: None, taken: false }
    }

    /// Records the outcome of the worker's creation attempt, unless the slot
    /// was resolved before; returns whether this call resolved it.
    pub fn resolve(&mut self, registration_failed: bool, hwnd: usize) -> (r: bool)
        ensures
            r == (old(self).outcome() is None && !old(self).is_taken()),
            r ==> final(self).outcome() == Some(creation_outcome(registration_failed, hwnd)),
            !r ==> final(self).outcome() == old(self).outcome(),
            final(self).is_taken() == old(self).is_taken(),
    {
        proof { use_type_invariant(&*self); }
        if self.slot.is_some() || self.taken {
            return false;
        }
        let outcome = if registration_failed || hwnd == 0 { Err(Error::SystemResources) } else { Ok(hwnd) };
        self.slot = Some(outcome);
        true
    }

    /// Takes the resolved outcome: `None` while the worker has not resolved
    /// the slot, so the asking thread must go on waiting. A success holds a
    /// non-zero handle.
    pub fn take(&mut self) -> (r: Option<Result<usize, Error>>)
        ensures
            r == old(self).outcome(),
            r matches Some(Ok(h)) ==> h != 0,
            r is Some ==> final(self).is_taken() && final(self).outcome() is None,
            r is None ==> final(self).is_taken() == old(self).is_taken() && final(self).outcome() is None,
    {
        proof { use_type_invariant(&*self); }
        if self.slot.is_none() {
            return None;
        }
        let mut resolved = Rendezvous { slot: None, taken: true };
        std::mem::swap(self, &mut resolved);
        resolved.slot
    }
}

} // verus!
