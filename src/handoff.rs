//! The bounded queue that hands accepted observations from the sourcing side to the
//! submission worker.

use vstd::prelude::*;

use std::collections::VecDeque;

use crate::quote::QuotePrice;

verus! {

/// Why an observation was not enqueued; it is handed back either way.
#[derive(Debug)]
pub enum PushError {
    /// The queue is at capacity: wait for the consumer and push the same observation again.
    Full(QuotePrice),
    /// The queue is closed for good: the pipeline cannot go on.
    Closed(QuotePrice),
}

/// A single-producer, single-consumer queue of at most `capacity` observations, which can
/// be closed once and for all.
pub struct HandoffQueue {
    items: VecDeque<QuotePrice>,
    capacity: usize,
    closed: bool,
}

impl HandoffQueue {
    /// The observations waiting, oldest first.
    pub closed spec fn contents(&self) -> Seq<QuotePrice> {
        self.items@
    }

    /// How many observations the queue holds at most.
    pub closed spec fn capacity_spec(&self) -> nat {
        self.capacity as nat
    }

    /// Whether the queue was closed.
    pub closed spec fn is_closed_spec(&self) -> bool {
        self.closed
    }

    /// An open, empty queue holding at most `capacity` observations, at least one.
    pub fn new(capacity: usize) -> (r: HandoffQueue)
        requires
            capacity > 0,
        ensures
            r.contents().len() == 0,
            r.capacity_spec() == capacity,
            !r.is_closed_spec(),
    {
        HandoffQueue { items: VecDeque::new(), capacity, closed: false }
    }

    /// How many observations are waiting.
    pub fn len(&self) -> (r: usize)
        ensures
            r == self.contents().len(),
    {
        self.items.len()
    }

    /// Whether the queue was closed.
    pub fn is_closed(&self) -> (r: bool)
        ensures
            r == self.is_closed_spec(),
    {
        self.closed
    }

    /// Appends `quote` when the queue is open and below capacity. Otherwise the queue is
    /// left as it was and `quote` comes back: nothing offered is ever dropped.
    pub fn try_push(&mut self, quote: QuotePrice) -> (r: Result<(), PushError>)
        ensures
            final(self).capacity_spec() == old(self).capacity_spec(),
            final(self).is_closed_spec() == old(self).is_closed_spec(),
            match spec_push(
                old(self).contents(),
                old(self).capacity_spec(),
                old(self).is_closed_spec(),
                quote,
            ) {
                Some(contents) => r is Ok && final(self).contents() == contents,
                None => final(self).contents() == old(self).contents() && if old(
                    self,
                ).is_closed_spec() {
                    r == Err::<(), PushError>(PushError::Closed(quote))
                } else {
                    r == Err::<(), PushError>(PushError::Full(quote))
                },
            },
    {
        if self.closed {
            Err(PushError::Closed(quote))
        } else if self.items.len() >= self.capacity {
            Err(PushError::Full(quote))
        } else {
            self.items.push_back(quote);
            Ok(())
        }
    }

    /// Takes the oldest waiting observation, if any; a closed queue still yields what it
    /// holds.
    pub fn pop(&mut self) -> (r: Option<QuotePrice>)
        ensures
            final(self).capacity_spec() == old(self).capacity_spec(),
            final(self).is_closed_spec() == old(self).is_closed_spec(),
            old(self).contents().len() == 0 ==> r is None && final(self).contents() == old(
                self,
            ).contents(),
            old(self).contents().len() > 0 ==> r == Some(old(self).contents()[0])
                && final(self).contents() == old(self).contents().drop_first(),
    {
        self.items.pop_front()
    }

    /// Closes the queue: no observation is accepted after this.
    pub fn close(&mut self)
        ensures
            final(self).is_closed_spec(),
            final(self).contents() == old(self).contents(),
            final(self).capacity_spec() == old(self).capacity_spec(),
    {
        self.closed = true;
    }
}

/// The queue after offering `quote` to one holding `contents`: `None` when the offer is
/// refused (closed, or at capacity), which leaves the queue as it was.
pub open spec fn spec_push(
    contents: Seq<QuotePrice>,
    capacity: nat,
    closed: bool,
    quote: QuotePrice,
) -> Option<Seq<QuotePrice>> {
    if closed || contents.len() >= capacity {
        None
    } else {
        Some(contents.push(quote))
    }
}

/// Backpressure delays the producer and loses nothing: a full open queue refuses an
/// observation (and hands it back, see [`HandoffQueue::try_push`]); once the consumer has
/// taken the oldest one, the same observation is accepted behind all that still waits.
pub proof fn lemma_full_queue_delays_without_loss(
    contents: Seq<QuotePrice>,
    capacity: nat,
    quote: QuotePrice,
)
    requires
        0 < capacity,
        contents.len() == capacity,
    ensures
        spec_push(contents, capacity, false, quote) is None,
        spec_push(contents.drop_first(), capacity, false, quote) == Some(
            contents.drop_first().push(quote),
        ),
{
}

} // verus!
