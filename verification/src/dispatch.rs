//! The event dispatcher's submission queue.
//!
//! Envelopes are submitted by the single read loop in strict arrival order
//! and taken out in the same order, so the relative submission order of
//! handler invocations always matches wire order. Running the handlers
//! themselves is the surrounding task's business: it takes events from the
//! front and schedules one handler invocation per registered handler,
//! without making the reader wait for any of them.

use vstd::prelude::*;

verus! {

/// One decoded event awaiting handler invocation.
#[derive(Clone, Debug)]
pub struct DispatchedEvent {
    /// The event counter stamped on the frame.
    pub sequence: u64,
    /// The discriminator for payload decoding.
    pub event_name: String,
    /// The event's body.
    pub payload: Vec<u8>,
}

/// A first-in, first-out queue of dispatched events.
#[derive(Debug)]
pub struct DispatchQueue {
    entries: Vec<DispatchedEvent>,
}

impl DispatchQueue {
    /// The queued events, oldest first.
    pub closed spec fn view(&self) -> Seq<DispatchedEvent> {
        self.entries@
    }

    /// An empty queue.
    pub fn new() -> (q: DispatchQueue)
        ensures
            q@ == Seq::<DispatchedEvent>::empty(),
    {
        DispatchQueue { entries: Vec::new() }
    }

    /// The number of events awaiting handler invocation.
    pub fn len(&self) -> (n: usize)
        ensures
            n == self@.len(),
    {
        self.entries.len()
    }

    /// Submit an event: it joins the back of the queue, behind everything
    /// that arrived before it.
    pub fn submit(&mut self, event: DispatchedEvent)
        ensures
            final(self)@ == old(self)@.push(event),
    {
        self.entries.push(event);
    }

    /// Take the oldest queued event, if any: submission order is preserved.
    pub fn take_next(&mut self) -> (r: Option<DispatchedEvent>)
        ensures
            old(self)@.len() == 0 ==> r is None && final(self)@ == old(self)@,
            old(self)@.len() > 0 ==> r == Some(old(self)@[0]) && final(self)@ == old(
                self,
            )@.drop_first(),
    {
        if self.entries.len() == 0 {
            None
        } else {
            let ev = self.entries.remove(0);
            proof {
                assert(self.entries@ =~= old(self).entries@.drop_first());
            }
            Some(ev)
        }
    }
}

} // verus!
