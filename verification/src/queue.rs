//! The bounded FIFO queue of actions between ingestor and executor.
//!
//! The queue is ordered and bounded: actions come out in exactly the
//! order they went in, and a full queue refuses an action — handing it
//! back untouched — rather than dropping it. The loop around the queue
//! turns that refusal into waiting, so backpressure reaches the
//! transport instead of losing messages.

use vstd::prelude::*;

use crate::models::Action;

verus! {

/// A bounded, ordered, first-in-first-out queue of actions.
pub struct ActionQueue {
    items: Vec<Action>,
    capacity: usize,
}

impl View for ActionQueue {
    type V = Seq<Action>;

    /// The queued actions, oldest first.
    closed spec fn view(&self) -> Seq<Action> {
        self.items@
    }
}

impl ActionQueue {
    /// The fixed capacity the queue was created with.
    pub closed spec fn spec_capacity(&self) -> nat {
        self.capacity as nat
    }

    /// The queue never holds more than its capacity.
    pub open spec fn wf(&self) -> bool {
        self@.len() <= self.spec_capacity()
    }

    /// An empty queue of the given capacity.
    pub fn new(capacity: usize) -> (r: Self)
        ensures
            r@ == Seq::<Action>::empty(),
            r.spec_capacity() == capacity,
            r.wf(),
    {
        ActionQueue { items: Vec::new(), capacity }
    }

    /// The capacity the queue was created with.
    pub fn capacity(&self) -> (r: usize)
        ensures
            r == self.spec_capacity(),
    {
        self.capacity
    }

    /// How many actions are queued now.
    pub fn len(&self) -> (r: usize)
        ensures
            r == self@.len(),
    {
        self.items.len()
    }

    /// Enqueue an action at the back. A full queue hands the action
    /// back unchanged — it is never dropped — and the caller waits and
    /// retries once the executor has drained a slot.
    pub fn try_send(&mut self, action: Action) -> (r: Result<(), Action>)
        requires
            old(self).wf(),
        ensures
            final(self).wf(),
            final(self).spec_capacity() == old(self).spec_capacity(),
            old(self)@.len() < old(self).spec_capacity() ==> r is Ok && final(self)@ == old(
                self,
            )@.push(action),
            old(self)@.len() >= old(self).spec_capacity() ==> r == Err::<(), Action>(action)
                && final(self)@ == old(self)@,
    {
        if self.items.len() < self.capacity {
            self.items.push(action);
            Ok(())
        } else {
            Err(action)
        }
    }

    /// Dequeue the oldest action, or nothing while the queue is empty:
    /// actions reach the executor in exactly the order they went in.
    pub fn try_recv(&mut self) -> (r: Option<Action>)
        requires
            old(self).wf(),
        ensures
            final(self).wf(),
            final(self).spec_capacity() == old(self).spec_capacity(),
            old(self)@.len() == 0 ==> r is None && final(self)@ == old(self)@,
            old(self)@.len() > 0 ==> (r matches Some(a) && a == old(self)@[0] && final(self)@
                == old(self)@.drop_first()),
    {
        if self.items.len() == 0 {
            None
        } else {
            let a = self.items.remove(0);
            proof {
                assert(self.items@ =~= old(self).items@.drop_first());
            }
            Some(a)
        }
    }
}

} // verus!
