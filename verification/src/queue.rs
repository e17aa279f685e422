//! A bounded FIFO queue: the stage-to-stage handoff of the pipeline.
//!
//! A full queue refuses a push and hands the element back — the producer
//! must hold on to it and retry, which is what lets a stalled consumer
//! block the stages above it without any element being dropped, duplicated
//! or reordered.

use vstd::prelude::*;

verus! {

/// What a push leaves of the queue, and what it hands back: the element is
/// appended when there is room, and returned to the producer when not.
pub open spec fn spec_try_push<T>(s: Seq<T>, cap: nat, t: T) -> (Seq<T>, Option<T>) {
    if s.len() < cap {
        (s.push(t), None)
    } else {
        (s, Some(t))
    }
}

/// What a pop leaves of the queue, and what it yields: the oldest element,
/// when there is one.
pub open spec fn spec_pop<T>(s: Seq<T>) -> (Seq<T>, Option<T>) {
    if s.len() > 0 {
        (s.drop_first(), Some(s[0]))
    } else {
        (s, None)
    }
}

/// A FIFO queue with a fixed capacity bound.
pub struct BoundedQueue<T> {
    items: Vec<T>,
    cap: usize,
}

impl<T> View for BoundedQueue<T> {
    type V = Seq<T>;

    closed spec fn view(&self) -> Seq<T> {
        self.items@
    }
}

impl<T> BoundedQueue<T> {
    /// The queue's capacity bound.
    pub closed spec fn cap(self) -> nat {
        self.cap as nat
    }

    /// Well-formedness: never fuller than the bound, and the bound is
    /// positive.
    pub closed spec fn inv(self) -> bool {
        self.items@.len() <= self.cap && self.cap >= 1
    }

    /// An empty queue with the given capacity bound.
    pub fn new(cap: usize) -> (r: BoundedQueue<T>)
        requires
            cap >= 1,
        ensures
            r.inv(),
            r@ == Seq::<T>::empty(),
            r.cap() == cap,
    {
        BoundedQueue { items: Vec::new(), cap }
    }

    pub fn len(&self) -> (r: usize)
        ensures
            r == self@.len(),
    {
        self.items.len()
    }

    pub fn is_full(&self) -> (r: bool)
        requires
            self.inv(),
        ensures
            r == (self@.len() >= self.cap()),
    {
        self.items.len() == self.cap
    }

    /// Append `t` if there is room; hand it back untouched if the queue is
    /// full, leaving the queue exactly as it was.
    pub fn try_push(&mut self, t: T) -> (r: Option<T>)
        requires
            old(self).inv(),
        ensures
            final(self).inv(),
            final(self).cap() == old(self).cap(),
            (final(self)@, r) == spec_try_push(old(self)@, old(self).cap(), t),
            old(self)@.len() < old(self).cap() ==> final(self)@ == old(self)@.push(t)
                && r is None,
            old(self)@.len() >= old(self).cap() ==> *final(self) == *old(self) && r == Some(t),
    {
        if self.items.len() < self.cap {
            self.items.push(t);
            None
        } else {
            Some(t)
        }
    }

    /// Remove and yield the oldest element, if there is one.
    pub fn pop(&mut self) -> (r: Option<T>)
        requires
            old(self).inv(),
        ensures
            final(self).inv(),
            final(self).cap() == old(self).cap(),
            (final(self)@, r) == spec_pop(old(self)@),
            old(self)@.len() > 0 ==> final(self)@ == old(self)@.drop_first()
                && r == Some(old(self)@[0]),
            old(self)@.len() == 0 ==> *final(self) == *old(self) && r is None,
    {
        if self.items.len() > 0 {
            Some(self.items.remove(0))
        } else {
            None
        }
    }
}

/// Backpressure without loss: pushing into a full queue changes nothing
/// and hands the element back to the producer; once the consumer pops one
/// element, the retried push succeeds, and the queue then holds exactly
/// the old elements minus the oldest plus the retried one, in order — no
/// element skipped, dropped, duplicated or reordered.
pub proof fn lemma_backpressure<T>(s: Seq<T>, cap: nat, t: T)
    requires
        s.len() == cap,
        cap >= 1,
    ensures
        spec_try_push(s, cap, t) == (s, Some(t)),
        ({
            let (drained, popped) = spec_pop(s);
            &&& popped == Some(s[0])
            &&& spec_try_push(drained, cap, t) == (s.drop_first().push(t), None::<T>)
        }),
{
}

} // verus!
