//! Bounded handoff channel between the network task and a collaborator task.
//!
//! Single-producer/single-consumer queue of typed messages with a fixed
//! capacity. It preserves enqueue order, and when the consumer falls behind it
//! discards the oldest entry rather than blocking the producer, so the most
//! recently enqueued message is always retained.

use vstd::prelude::*;

verus! {

/// In-process bounded queue moving typed messages between the synchronization
/// engine and the simulation or presentation collaborator.
pub struct Handoff<T> {
    items: Vec<T>,
    capacity: usize,
}

/// The queue a bounded send leaves behind: the item is appended, and when the
/// queue stood at capacity the oldest entry is discarded to make room.
pub open spec fn spec_handoff_send<T>(s: Seq<T>, cap: nat, item: T) -> Seq<T> {
    if s.len() < cap {
        s.push(item)
    } else {
        s.drop_first().push(item)
    }
}

impl<T> Handoff<T> {
    /// The queued messages, oldest first.
    pub closed spec fn view(&self) -> Seq<T> {
        self.items@
    }

    pub closed spec fn spec_capacity(&self) -> nat {
        self.capacity as nat
    }

    /// Well-formedness: a positive capacity that the queue never exceeds.
    pub open spec fn wf(&self) -> bool {
        &&& self.view().len() <= self.spec_capacity()
        &&& self.spec_capacity() >= 1
    }

    pub fn new(capacity: usize) -> (r: Self)
        requires
            capacity >= 1,
        ensures
            r.wf(),
            r.view() == Seq::<T>::empty(),
            r.spec_capacity() == capacity,
    {
        let r = Handoff { items: Vec::new(), capacity };
        proof {
            assert(r.view() =~= Seq::<T>::empty());
        }
        r
    }

    pub fn capacity(&self) -> (n: usize)
        ensures
            n == self.spec_capacity(),
    {
        self.capacity
    }

    pub fn len(&self) -> (n: usize)
        ensures
            n == self.view().len(),
    {
        self.items.len()
    }

    /// Enqueues `item`, discarding the oldest entry if the queue is full.
    pub fn send(&mut self, item: T)
        requires
            old(self).wf(),
        ensures
            final(self).wf(),
            final(self).spec_capacity() == old(self).spec_capacity(),
            final(self).view() == spec_handoff_send(
                old(self).view(),
                old(self).spec_capacity(),
                item,
            ),
    {
        if self.items.len() == self.capacity {
            self.items.remove(0);
            proof {
                assert(self.items@ =~= old(self).view().drop_first());
            }
        }
        self.items.push(item);
    }

    /// Dequeues the oldest entry, if any.
    pub fn recv(&mut self) -> (r: Option<T>)
        requires
            old(self).wf(),
        ensures
            final(self).wf(),
            final(self).spec_capacity() == old(self).spec_capacity(),
            old(self).view().len() == 0 ==> r is None && final(self).view() == old(self).view(),
            old(self).view().len() > 0 ==> (match r {
                Option::Some(item) => item == old(self).view()[0] && final(self).view() == old(
                    self,
                ).view().drop_first(),
                Option::None => false,
            }),
    {
        if self.items.len() == 0 {
            None
        } else {
            let item = self.items.remove(0);
            proof {
                assert(self.items@ =~= old(self).view().drop_first());
            }
            Some(item)
        }
    }
}

/// Law: however full the queue was, a bounded send keeps the sent item as the
/// newest entry, keeps the queue within capacity, and leaves it non-empty, so
/// a consumer that drains the queue always observes the most recent message.
pub proof fn lemma_send_keeps_latest<T>(s: Seq<T>, cap: nat, item: T)
    requires
        cap >= 1,
        s.len() <= cap,
    ensures
        spec_handoff_send(s, cap, item).len() >= 1,
        spec_handoff_send(s, cap, item).len() <= cap,
        spec_handoff_send(s, cap, item).last() == item,
{
}

/// Law: a bounded send never reorders what stays queued: the entries before
/// the sent item are the previously queued entries, oldest possibly dropped,
/// in their original order.
pub proof fn lemma_send_preserves_order<T>(s: Seq<T>, cap: nat, item: T)
    requires
        cap >= 1,
        s.len() <= cap,
    ensures
        s.len() < cap ==> spec_handoff_send(s, cap, item).drop_last() == s,
        s.len() == cap ==> spec_handoff_send(s, cap, item).drop_last() == s.drop_first(),
{
    if s.len() < cap {
        assert(spec_handoff_send(s, cap, item).drop_last() =~= s);
    } else {
        assert(spec_handoff_send(s, cap, item).drop_last() =~= s.drop_first());
    }
}

} // verus!
