//! The bounded first-in-first-out bus that the producers feed and the main
//! loop drains.
//!
//! Each producer appends at the back and the consumer takes from the front,
//! so events of one producer come out in the order it sent them; the
//! interleaving across producers is whatever arrival order the schedule
//! produced, and consumers must not assume a fixed one.
use vstd::prelude::*;

use crate::collection::Length;
use crate::event::event::Event;

verus! {

/// An internal event could not be enqueued: the bus was full. In a correct
/// build this is unreachable, since producers stay within the bound.
#[derive(Debug, Copy, Clone, PartialEq, Eq, Structural)]
pub struct ChannelSendError;

/// A bounded first-in-first-out queue of events.
pub struct EventBus {
    queue: std::collections::VecDeque<Event>,
    capacity: usize,
}

impl View for EventBus {
    type V = Seq<Event>;

    closed spec fn view(&self) -> Seq<Event> {
        self.queue@
    }
}

impl EventBus {
    /// The bus invariant: never over capacity.
    pub open spec fn wf(&self) -> bool {
        self@.len() <= self.spec_capacity()
    }

    /// The bound the bus was created with.
    pub closed spec fn spec_capacity(&self) -> nat {
        self.capacity as nat
    }

    /// An empty bus with the given bound.
    pub fn new(capacity: usize) -> (r: EventBus)
        ensures
            r.wf(),
            r@ == Seq::<Event>::empty(),
            r.spec_capacity() == capacity,
    {
        EventBus { queue: std::collections::VecDeque::new(), capacity }
    }

    /// Appends an event at the back; refused when the bus is full, leaving
    /// the queue unchanged.
    pub fn try_send(&mut self, event: Event) -> (r: Result<(), ChannelSendError>)
        requires
            old(self).wf(),
        ensures
            final(self).wf(),
            final(self).spec_capacity() == old(self).spec_capacity(),
            old(self)@.len() < old(self).spec_capacity() ==> r is Ok && final(self)@ == old(
                self,
            )@.push(event),
            old(self)@.len() >= old(self).spec_capacity() ==> r is Err && final(self)@ == old(
                self,
            )@,
    {
        if self.queue.len() < self.capacity {
            self.queue.push_back(event);
            Ok(())
        } else {
            Err(ChannelSendError)
        }
    }

    /// Takes the event at the front, if any.
    pub fn recv(&mut self) -> (r: Option<Event>)
        requires
            old(self).wf(),
        ensures
            final(self).wf(),
            final(self).spec_capacity() == old(self).spec_capacity(),
            old(self)@.len() == 0 ==> r is None && final(self)@ == old(self)@,
            old(self)@.len() > 0 ==> (r matches Some(e) && e == old(self)@[0] && final(self)@
                == old(self)@.drop_first()),
    {
        let r = self.queue.pop_front();
        proof {
            if old(self)@.len() > 0 {
                assert(self@ =~= old(self)@.drop_first());
            }
        }
        r
    }
}

impl Length for EventBus {
    open spec fn spec_len(&self) -> nat {
        self@.len()
    }

    fn len(&self) -> (r: usize)
        ensures
            r == self.spec_len(),
    {
        self.queue.len()
    }
}

} // verus!
