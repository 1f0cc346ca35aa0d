//! Turns a push-style stream into bounded batches for polling consumers.
//!
//! A poll is driven from outside: the driver performs the action that each step
//! returns (create the source, wait for one item with a timeout, hand the batch
//! over) and reports what happened.

use vstd::prelude::*;

verus! {

/// Largest number of console lines that one poll hands over.
pub const CONSOLE_MAX_BATCH: usize = 100;

/// How long one poll waits for each console line, in milliseconds.
pub const CONSOLE_ITEM_TIMEOUT_MS: u64 = 10;

/// What the driver of a poll has to do next.
#[derive(Debug, Clone, Copy, PartialEq, Eq, Structural)]
pub enum PollAction {
    /// Open the underlying stream, then call `source_created`.
    CreateSource,
    /// Wait for the next item, bounded by the per-item timeout, then call `on_event`.
    AwaitItem,
    /// Stop waiting and call `take_batch`.
    Deliver,
}

/// What one bounded wait on the underlying stream produced.
pub enum SourceEvent<T> {
    /// An item arrived.
    Item(T),
    /// The wait timed out, or the stream ended.
    Idle,
}

/// Batching state of one consumer: whether its stream exists, the batch being
/// collected, and (as ghost state) everything the stream produced and everything
/// handed over so far.
pub struct StreamBatcher<T> {
    source_ready: bool,
    polling: bool,
    max_batch: usize,
    batch: Vec<T>,
    received: Ghost<Seq<T>>,
    delivered: Ghost<Seq<T>>,
}

impl<T> StreamBatcher<T> {
    /// Whether the underlying stream has been created.
    pub closed spec fn source_ready(&self) -> bool {
        self.source_ready
    }

    /// Whether a poll is in progress.
    pub closed spec fn polling(&self) -> bool {
        self.polling
    }

    /// Largest batch one poll hands over.
    pub closed spec fn max_batch(&self) -> nat {
        self.max_batch as nat
    }

    /// Items collected by the poll in progress.
    pub closed spec fn pending(&self) -> Seq<T> {
        self.batch@
    }

    /// Every item the stream produced, in arrival order.
    pub closed spec fn received(&self) -> Seq<T> {
        self.received@
    }

    /// Concatenation of every batch handed over so far.
    pub closed spec fn delivered(&self) -> Seq<T> {
        self.delivered@
    }

    /// The state invariant: what was handed over followed by what is pending is
    /// exactly what arrived, and a batch stays within its bound.
    pub closed spec fn wf(&self) -> bool {
        &&& self.batch@.len() <= self.max_batch
        &&& self.delivered@ + self.batch@ == self.received@
        &&& !self.polling ==> self.batch@.len() == 0
        &&& !self.source_ready ==> self.received@.len() == 0
    }

    /// The action that follows the current state of a poll.
    pub open spec fn next_action(&self) -> PollAction {
        if !self.source_ready() {
            PollAction::CreateSource
        } else if self.pending().len() < self.max_batch() {
            PollAction::AwaitItem
        } else {
            PollAction::Deliver
        }
    }

    /// A batcher whose stream is not created yet.
    pub fn new(max_batch: usize) -> (r: StreamBatcher<T>)
        ensures
            r.wf(),
            !r.source_ready(),
            !r.polling(),
            r.max_batch() == max_batch,
            r.received() == Seq::<T>::empty(),
            r.delivered() == Seq::<T>::empty(),
    {
        StreamBatcher {
            source_ready: false,
            polling: false,
            max_batch,
            batch: Vec::new(),
            received: Ghost(Seq::empty()),
            delivered: Ghost(Seq::empty()),
        }
    }

    /// Whether the underlying stream has been created.
    pub fn is_source_ready(&self) -> (r: bool)
        ensures
            r == self.source_ready(),
    {
        self.source_ready
    }

    /// Starts a poll; the stream is created on the first poll only.
    pub fn begin_poll(&mut self) -> (r: PollAction)
        requires
            old(self).wf(),
            !old(self).polling(),
        ensures
            final(self).wf(),
            final(self).polling(),
            final(self).source_ready() == old(self).source_ready(),
            final(self).max_batch() == old(self).max_batch(),
            final(self).pending() == Seq::<T>::empty(),
            final(self).received() == old(self).received(),
            final(self).delivered() == old(self).delivered(),
            r == final(self).next_action(),
    {
        self.polling = true;
        if !self.source_ready {
            PollAction::CreateSource
        } else if self.batch.len() < self.max_batch {
            PollAction::AwaitItem
        } else {
            PollAction::Deliver
        }
    }

    /// Records that the underlying stream now exists.
    pub fn source_created(&mut self) -> (r: PollAction)
        requires
            old(self).wf(),
            old(self).polling(),
            !old(self).source_ready(),
        ensures
            final(self).wf(),
            final(self).polling(),
            final(self).source_ready(),
            final(self).max_batch() == old(self).max_batch(),
            final(self).pending() == old(self).pending(),
            final(self).received() == old(self).received(),
            final(self).delivered() == old(self).delivered(),
            r == final(self).next_action(),
    {
        self.source_ready = true;
        if self.batch.len() < self.max_batch {
            PollAction::AwaitItem
        } else {
            PollAction::Deliver
        }
    }

    /// Records the outcome of one bounded wait: an item joins the batch, while a
    /// timeout ends the poll.
    pub fn on_event(&mut self, event: SourceEvent<T>) -> (r: PollAction)
        requires
            old(self).wf(),
            old(self).polling(),
            old(self).source_ready(),
            old(self).pending().len() < old(self).max_batch(),
        ensures
            final(self).wf(),
            final(self).polling(),
            final(self).source_ready(),
            final(self).max_batch() == old(self).max_batch(),
            final(self).delivered() == old(self).delivered(),
            match event {
                SourceEvent::Item(x) => {
                    &&& final(self).pending() == old(self).pending().push(x)
                    &&& final(self).received() == old(self).received().push(x)
                    &&& r == final(self).next_action()
                },
                SourceEvent::Idle => {
                    &&& final(self).pending() == old(self).pending()
                    &&& final(self).received() == old(self).received()
                    &&& r == PollAction::Deliver
                },
            },
    {
        match event {
            SourceEvent::Item(x) => {
                proof {
                    self.received@ = self.received@.push(x);
                }
                self.batch.push(x);
                assert(self.delivered@ + self.batch@ =~= self.received@);
                if self.batch.len() < self.max_batch {
                    PollAction::AwaitItem
                } else {
                    PollAction::Deliver
                }
            },
            SourceEvent::Idle => PollAction::Deliver,
        }
    }

    /// Ends the poll and hands over its batch: the items that arrived since the
    /// previous batch, in arrival order.
    pub fn take_batch(&mut self) -> (r: Vec<T>)
        requires
            old(self).wf(),
            old(self).polling(),
        ensures
            final(self).wf(),
            !final(self).polling(),
            final(self).source_ready() == old(self).source_ready(),
            final(self).max_batch() == old(self).max_batch(),
            r@ == old(self).pending(),
            r@.len() <= old(self).max_batch(),
            r@ == old(self).received().subrange(
                old(self).delivered().len() as int,
                old(self).received().len() as int,
            ),
            final(self).received() == old(self).received(),
            final(self).delivered() == old(self).delivered() + r@,
    {
        let mut r: Vec<T> = Vec::new();
        std::mem::swap(&mut r, &mut self.batch);
        proof {
            self.delivered@ = self.delivered@ + r@;
            assert(self.delivered@ + self.batch@ =~= self.received@);
            assert(r@ =~= old(self).received().subrange(
                old(self).delivered().len() as int,
                old(self).received().len() as int,
            ));
        }
        self.polling = false;
        r
    }
}

/// Between polls, the batches handed over so far, concatenated, are exactly the
/// items the stream produced, in arrival order: none is repeated or lost.
pub proof fn lemma_batches_reproduce_arrivals<T>(b: StreamBatcher<T>)
    requires
        b.wf(),
        !b.polling(),
    ensures
        b.delivered() == b.received(),
{
    assert(b.delivered@ + b.batch@ =~= b.delivered@);
}

} // verus!
