//! The internal event queue shared between the components and the
//! application's main loop: producers append at the back, the main loop
//! drains from the front, strictly first-in first-out.

use vstd::prelude::*;

use std::collections::VecDeque;

use crate::events::InternalEvent;
use crate::events::InternalEventView;

verus! {

/// An ordered, single-consumer queue of [`InternalEvent`]s.
///
/// Its mathematical value is the sequence of queued events, oldest first,
/// each abstracted by its [`InternalEventView`].
pub struct Queue {
    events: VecDeque<InternalEvent>,
}

impl View for Queue {
    type V = Seq<InternalEventView>;

    closed spec fn view(&self) -> Seq<InternalEventView> {
        self.events@.map_values(|e: InternalEvent| e@)
    }
}

impl Queue {
    /// Creates an empty queue.
    pub fn new() -> (q: Queue)
        ensures
            q@ == Seq::<InternalEventView>::empty(),
    {
        let q = Queue { events: VecDeque::new() };
        proof {
            assert(q@ =~= Seq::<InternalEventView>::empty());
        }
        q
    }

    /// Appends one event at the back of the queue.
    pub fn push_back(&mut self, ev: InternalEvent)
        ensures
            final(self)@ == old(self)@.push(ev@),
    {
        let ghost evv = ev@;
        self.events.push_back(ev);
        proof {
            assert(self@ =~= old(self)@.push(evv));
        }
    }

    /// Removes and returns the oldest event, or `None` on an empty queue.
    pub fn pop_front(&mut self) -> (r: Option<InternalEvent>)
        ensures
            old(self)@.len() == 0 ==> r is None && final(self)@ == old(self)@,
            old(self)@.len() > 0 ==> (r matches Some(e) && e@ == old(self)@[0]
                && final(self)@ == old(self)@.drop_first()),
    {
        let r = self.events.pop_front();
        proof {
            if old(self)@.len() == 0 {
                assert(self@ =~= old(self)@);
            } else {
                assert(self@ =~= old(self)@.drop_first());
            }
        }
        r
    }

    /// The number of queued events.
    pub fn len(&self) -> (n: usize)
        ensures
            n == self@.len(),
    {
        self.events.len()
    }

    /// Whether no event is queued.
    pub fn is_empty(&self) -> (b: bool)
        ensures
            b == (self@.len() == 0),
    {
        self.events.len() == 0
    }
}

} // verus!
