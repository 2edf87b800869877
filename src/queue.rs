//! The pool's message queue: an unbounded FIFO that many producers feed and
//! many consumers drain one item at a time.
//!
//! The queue itself never blocks. A caller that shares it between threads
//! keeps it behind a lock and waits on a condition while `try_receive`
//! reports `Received::Empty`.
use std::collections::VecDeque;
use vstd::prelude::*;

verus! {

/// The queue was closed: it accepts no more items.
#[derive(PartialEq, Eq, Structural, Debug, Clone, Copy)]
pub struct ChannelClosed;

/// The outcome of one non-blocking receive.
pub enum Received<T> {
    /// The oldest pending item, now removed from the queue.
    Item(T),
    /// Nothing is pending, but the queue is open: more may arrive.
    Empty,
    /// Nothing is pending and the queue is closed: nothing ever will.
    Closed,
}

/// An unbounded FIFO queue with a close operation.
///
/// Besides the pending items it keeps, as ghost state, the whole history of
/// what was sent and what was taken, so that delivery can be stated exactly.
pub struct JobQueue<T> {
    items: VecDeque<T>,
    closed: bool,
    sent: Ghost<Seq<T>>,
    taken: Ghost<Seq<T>>,
}

impl<T> View for JobQueue<T> {
    type V = Seq<T>;

    /// The pending items, oldest first.
    closed spec fn view(&self) -> Seq<T> {
        self.items@
    }
}

impl<T> JobQueue<T> {
    /// Every item ever sent was either taken already or is still pending,
    /// in the order in which it was sent.
    pub closed spec fn wf(&self) -> bool {
        self.sent@ == self.taken@ + self.items@
    }

    pub closed spec fn is_closed_spec(&self) -> bool {
        self.closed
    }

    /// Everything that was ever accepted by `send`, in order.
    pub closed spec fn sent_items(&self) -> Seq<T> {
        self.sent@
    }

    /// Everything that was ever handed out by `try_receive`, in order.
    pub closed spec fn taken_items(&self) -> Seq<T> {
        self.taken@
    }

    /// An empty, open queue.
    pub fn new() -> (q: Self)
        ensures
            q.wf(),
            q@ == Seq::<T>::empty(),
            !q.is_closed_spec(),
            q.sent_items() == Seq::<T>::empty(),
            q.taken_items() == Seq::<T>::empty(),
    {
        JobQueue {
            items: VecDeque::new(),
            closed: false,
            sent: Ghost(Seq::empty()),
            taken: Ghost(Seq::empty()),
        }
    }

    /// Appends `item` at the back; refused once the queue is closed.
    pub fn send(&mut self, item: T) -> (r: Result<(), ChannelClosed>)
        requires
            old(self).wf(),
        ensures
            final(self).wf(),
            final(self).is_closed_spec() == old(self).is_closed_spec(),
            final(self).taken_items() == old(self).taken_items(),
            old(self).is_closed_spec() ==> r is Err && final(self)@ == old(self)@
                && final(self).sent_items() == old(self).sent_items(),
            !old(self).is_closed_spec() ==> r is Ok && final(self)@ == old(self)@.push(item)
                && final(self).sent_items() == old(self).sent_items().push(item),
    {
        if self.closed {
            return Err(ChannelClosed);
        }
        proof {
            self.sent@ = self.sent@.push(item);
            assert(self.sent@ =~= self.taken@ + self.items@.push(item));
        }
        self.items.push_back(item);
        Ok(())
    }

    /// Removes and returns the oldest pending item. Items still pending when
    /// the queue is closed are delivered before `Closed` is reported.
    pub fn try_receive(&mut self) -> (r: Received<T>)
        requires
            old(self).wf(),
        ensures
            final(self).wf(),
            final(self).is_closed_spec() == old(self).is_closed_spec(),
            final(self).sent_items() == old(self).sent_items(),
            old(self)@.len() > 0 ==> r == Received::Item(old(self)@[0])
                && final(self)@ == old(self)@.drop_first()
                && final(self).taken_items() == old(self).taken_items().push(old(self)@[0]),
            old(self)@.len() == 0 ==> final(self)@ == old(self)@
                && final(self).taken_items() == old(self).taken_items()
                && r == (if old(self).is_closed_spec() {
                    Received::<T>::Closed
                } else {
                    Received::<T>::Empty
                }),
    {
        let ghost before = self.items@;
        match self.items.pop_front() {
            Some(x) => {
                proof {
                    let ghost old_taken = self.taken@;
                    self.taken@ = self.taken@.push(x);
                    assert(before =~= seq![x] + self.items@);
                    assert(old_taken + before =~= self.taken@ + self.items@);
                }
                Received::Item(x)
            },
            None => {
                if self.closed {
                    Received::Closed
                } else {
                    Received::Empty
                }
            },
        }
    }

    /// Closes the queue: later sends fail, pending items are still delivered.
    pub fn close(&mut self)
        requires
            old(self).wf(),
        ensures
            final(self).wf(),
            final(self).is_closed_spec(),
            final(self)@ == old(self)@,
            final(self).sent_items() == old(self).sent_items(),
            final(self).taken_items() == old(self).taken_items(),
    {
        self.closed = true;
    }

    pub fn is_closed(&self) -> (r: bool)
        ensures
            r == self.is_closed_spec(),
    {
        self.closed
    }

    /// The number of pending items.
    pub fn len(&self) -> (r: usize)
        ensures
            r == self@.len(),
    {
        self.items.len()
    }
}

/// Delivery is exact: once nothing is pending, every item that was sent has
/// been taken exactly once, in the order of sending.
pub proof fn lemma_delivered_exactly_once<T>(q: &JobQueue<T>)
    requires
        q.wf(),
        q@.len() == 0,
    ensures
        q.taken_items() == q.sent_items(),
{
    assert(q.taken_items() + q@ =~= q.taken_items());
}

} // verus!
