//! The hand-off channel: a bounded first-in-first-out queue of fixed
//! capacity that decouples the network side from the consumer's rendering
//! loop. The producer's send fails over — rather than drops — when the queue
//! is momentarily full, so no item is ever lost or duplicated; the consumer
//! polls without blocking once per tick and observes the items in the order
//! they were sent. The capacity is deliberately small: it bounds both memory
//! and the staleness of what the consumer sees.

use vstd::prelude::*;

verus! {

/// How many in-flight updates the channel holds at most.
pub const CHANNEL_CAPACITY: usize = 3;

/// A bounded first-in-first-out queue. Its mathematical value is the
/// sequence of queued items, oldest first, never longer than
/// [`CHANNEL_CAPACITY`].
pub struct HandoffChannel<T> {
    items: Vec<T>,
}

impl<T> View for HandoffChannel<T> {
    type V = Seq<T>;

    closed spec fn view(&self) -> Seq<T> {
        self.items@
    }
}

impl<T> HandoffChannel<T> {
    /// A new, empty channel.
    pub fn new() -> (c: Self)
        ensures
            c@ == Seq::<T>::empty(),
    {
        HandoffChannel { items: Vec::new() }
    }

    /// How many items are queued.
    pub fn len(&self) -> (n: usize)
        ensures
            n == self@.len(),
    {
        self.items.len()
    }

    /// Queue one item. With room, the item goes to the back and nothing else
    /// changes; at capacity the channel is left untouched and the item comes
    /// back to the caller, who may retry after the consumer has drained —
    /// bounded backpressure, never a silent drop.
    pub fn try_send(&mut self, item: T) -> (r: Result<(), T>)
        ensures
            old(self)@.len() < CHANNEL_CAPACITY ==> r is Ok && final(self)@ == old(self)@.push(
                item,
            ),
            old(self)@.len() >= CHANNEL_CAPACITY ==> (r matches Err(t) && t == item)
                && final(self)@ == old(self)@,
            old(self)@.len() <= CHANNEL_CAPACITY ==> final(self)@.len() <= CHANNEL_CAPACITY,
    {
        if self.items.len() < CHANNEL_CAPACITY {
            self.items.push(item);
            Ok(())
        } else {
            Err(item)
        }
    }

    /// Take the oldest item, without blocking: `None` on an empty channel,
    /// otherwise the front item, and the rest move up in order.
    pub fn try_recv(&mut self) -> (r: Option<T>)
        ensures
            old(self)@.len() == 0 ==> r is None && final(self)@ == old(self)@,
            old(self)@.len() > 0 ==> (r matches Some(t) && t == old(self)@[0]) && final(self)@
                == old(self)@.subrange(1, old(self)@.len() as int),
    {
        if self.items.len() == 0 {
            None
        } else {
            let item = self.items.remove(0);
            proof {
                assert(self@ =~= old(self)@.subrange(1, old(self)@.len() as int));
            }
            Some(item)
        }
    }
}

/// What repeatedly taking the front item until the channel is empty yields:
/// the head, then whatever draining the rest yields. This is the consumer's
/// view of a drain, one [`HandoffChannel::try_recv`] per step.
pub open spec fn spec_drained<T>(c: Seq<T>) -> Seq<T>
    decreases c.len(),
{
    if c.len() == 0 {
        Seq::empty()
    } else {
        seq![c[0]] + spec_drained(c.subrange(1, c.len() as int))
    }
}

/// Draining observes exactly the queued items, in order, each once: nothing
/// is lost, duplicated or reordered between the producer's sends — which
/// either append an item or hand it back untouched — and the consumer's
/// receives.
pub proof fn lemma_drain_in_order<T>(c: Seq<T>)
    ensures
        spec_drained(c) == c,
    decreases c.len(),
{
    if c.len() > 0 {
        lemma_drain_in_order(c.subrange(1, c.len() as int));
        assert(spec_drained(c) =~= c);
    } else {
        assert(spec_drained(c) =~= c);
    }
}

} // verus!
