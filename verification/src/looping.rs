//! The one place through which a looping request reaches a running worker.

use vstd::prelude::*;

verus! {

/// A slot for one looping request.
///
/// A request stays in the slot until the worker takes it. A request that
/// arrives before that replaces the one that waits: the worker only ever sees
/// the request made last.
#[derive(Debug)]
pub struct LoopingSlot {
    waiting: Option<bool>,
}

impl View for LoopingSlot {
    type V = Option<bool>;

    closed spec fn view(&self) -> Option<bool> {
        self.waiting
    }
}

/// What waits in a slot once `looping` was put into it, whatever waited
/// there before: that request.
pub open spec fn sent(waiting: Option<bool>, looping: bool) -> Option<bool> {
    Some(looping)
}

impl LoopingSlot {
    /// A slot in which nothing waits.
    pub fn new() -> (slot: LoopingSlot)
        ensures
            slot@ == None::<bool>,
    {
        LoopingSlot { waiting: None }
    }

    /// Puts a request into the slot, in place of any that waits there.
    pub fn send(&mut self, looping: bool)
        ensures
            final(self)@ == sent(old(self)@, looping),
    {
        self.waiting = Some(looping);
    }

    /// Takes the waiting request out of the slot, if there is one.
    pub fn try_recv(&mut self) -> (received: Option<bool>)
        ensures
            received == old(self)@,
            final(self)@ == None::<bool>,
    {
        let received = self.waiting;
        self.waiting = None;
        received
    }
}

} // verus!
