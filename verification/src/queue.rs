//! The bounded queue between the telemetry producer and the display loop:
//! fixed capacity, FIFO, single producer / single consumer. A full queue
//! refuses the sample (the producer then blocks and retries: backpressure,
//! never a silent drop), and a closed, drained queue tells the consumer that
//! the producer is gone.

use vstd::prelude::*;

use crate::sample::GpuStats;

verus! {

/// Capacity of the bounded queue, in samples.
pub const QUEUE_CAPACITY: usize = 32;

/// What the producer's publish attempt did.
pub enum PushOutcome {
    /// The sample was appended at the back of the queue.
    Accepted,
    /// The queue is at capacity; nothing changed. The producer must retry
    /// (backpressure) rather than drop the sample.
    Full,
}

/// What the display loop's non-blocking drain found.
pub enum PopOutcome {
    /// The oldest queued sample, removed from the front.
    Item(GpuStats),
    /// Nothing queued right now; the producer may still publish more.
    Empty,
    /// Nothing queued and the producer side is gone: a terminal signal.
    Closed,
}

/// A fixed-capacity FIFO queue of samples. The view is the queued samples in
/// order, oldest first.
pub struct BoundedQueue {
    items: Vec<GpuStats>,
    closed: bool,
}

impl View for BoundedQueue {
    type V = Seq<GpuStats>;

    closed spec fn view(&self) -> Seq<GpuStats> {
        self.items@
    }
}

impl BoundedQueue {
    /// The producer side has been dropped: no further sample will arrive.
    pub closed spec fn is_closed(self) -> bool {
        self.closed
    }

    /// At most `QUEUE_CAPACITY` samples are ever held.
    pub open spec fn wf(self) -> bool {
        self@.len() <= QUEUE_CAPACITY
    }

    /// A fresh queue: empty, open.
    pub fn new() -> (q: Self)
        ensures
            q@ == Seq::<GpuStats>::empty(),
            !q.is_closed(),
            q.wf(),
    {
        BoundedQueue { items: Vec::new(), closed: false }
    }

    /// Try to append a sample at the back. Under capacity the sample is
    /// accepted and queued behind everything already held; at capacity the
    /// queue is left exactly as it was and the producer is told to retry.
    /// No path drops the sample silently.
    pub fn try_push(&mut self, s: GpuStats) -> (r: PushOutcome)
        requires
            old(self).wf(),
        ensures
            final(self).wf(),
            final(self).is_closed() == old(self).is_closed(),
            old(self)@.len() < QUEUE_CAPACITY ==> {
                &&& r is Accepted
                &&& final(self)@ == old(self)@.push(s)
            },
            old(self)@.len() >= QUEUE_CAPACITY ==> {
                &&& r is Full
                &&& final(self)@ == old(self)@
            },
    {
        if self.items.len() < QUEUE_CAPACITY {
            self.items.push(s);
            PushOutcome::Accepted
        } else {
            PushOutcome::Full
        }
    }

    /// Non-blocking drain of one sample from the front. A non-empty queue
    /// yields its oldest sample (FIFO); an empty one reports `Empty` while
    /// the producer lives and `Closed` once it is gone. The queue is never
    /// changed except by removing that front sample.
    pub fn try_pop(&mut self) -> (r: PopOutcome)
        ensures
            final(self).is_closed() == old(self).is_closed(),
            old(self).wf() ==> final(self).wf(),
            old(self)@.len() > 0 ==> {
                &&& r == PopOutcome::Item(old(self)@[0])
                &&& final(self)@ == old(self)@.drop_first()
            },
            old(self)@.len() == 0 ==> {
                &&& final(self)@ == old(self)@
                &&& r == (if old(self).is_closed() {
                    PopOutcome::Closed
                } else {
                    PopOutcome::Empty
                })
            },
    {
        if self.items.len() > 0 {
            let s = self.items.remove(0);
            PopOutcome::Item(s)
        } else if self.closed {
            PopOutcome::Closed
        } else {
            PopOutcome::Empty
        }
    }

    /// The producer side announces that it is done: already-queued samples
    /// stay deliverable, and once they are drained the consumer sees
    /// `Closed`.
    pub fn close(&mut self)
        ensures
            final(self)@ == old(self)@,
            final(self).is_closed(),
            final(self).wf() == old(self).wf(),
    {
        self.closed = true;
    }
}

/// Law (lossless FIFO delivery): the queue never silently drops or reorders
/// a sample. If every sample produced so far is either already delivered, in
/// order, or still queued (`delivered + queued == produced`), then that
/// account is preserved by each accepted push and by each successful pop, and
/// the delivered samples are always exactly a prefix of the produced ones.
/// Since a refused push (`Full`) and a drain of an empty queue change
/// nothing, every produced sample is eventually handed over, in production
/// order, once the consumer keeps draining.
pub proof fn lemma_lossless_fifo(
    produced: Seq<GpuStats>,
    delivered: Seq<GpuStats>,
    queued: Seq<GpuStats>,
    s: GpuStats,
)
    requires
        delivered + queued == produced,
    ensures
        delivered + queued.push(s) == produced.push(s),
        queued.len() > 0 ==> (delivered.push(queued[0]) + queued.drop_first() == produced),
        delivered == produced.take(delivered.len() as int),
        queued.len() == 0 ==> delivered == produced,
{
    assert(delivered + queued.push(s) =~= (delivered + queued).push(s));
    if queued.len() > 0 {
        assert(delivered.push(queued[0]) + queued.drop_first() =~= delivered + queued);
    }
    assert(delivered =~= produced.take(delivered.len() as int));
    if queued.len() == 0 {
        assert(delivered =~= produced);
    }
}

} // verus!
