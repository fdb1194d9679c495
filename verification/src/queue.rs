use vstd::prelude::*;

use crate::value::WriteRequest;

verus! {

/// Bound of the write queue: a small fixed capacity so burst producers are
/// slowed by backpressure instead of growing memory without limit.
pub const QUEUE_CAPACITY: usize = 50;

/// What a submission to the queue did.
#[derive(Debug, Clone, Copy, PartialEq, Eq, Structural)]
pub enum QueueAttempt {
    /// The request was appended behind the pending ones.
    Enqueued,
    /// The queue held its full capacity. Nothing was dropped and nothing
    /// was appended: the caller must wait for space and submit again.
    MustWait,
}

/// A bounded FIFO of pending writes, decoupling producers from the single
/// drainer that performs writes against the session.
pub struct WriteQueue {
    items: Vec<WriteRequest>,
    capacity: usize,
}

impl WriteQueue {
    /// The pending requests, oldest first.
    pub closed spec fn contents(&self) -> Seq<WriteRequest> {
        self.items@
    }

    /// The fixed bound the queue was created with.
    pub closed spec fn cap(&self) -> nat {
        self.capacity as nat
    }

    /// The queue never holds more than its bound.
    pub open spec fn wf(&self) -> bool {
        self.contents().len() <= self.cap() && self.cap() >= 1
    }

    /// An empty queue with the given bound.
    pub fn new(capacity: usize) -> (q: Self)
        requires
            capacity >= 1,
        ensures
            q.wf(),
            q.cap() == capacity as nat,
            q.contents() == Seq::<WriteRequest>::empty(),
    {
        WriteQueue { items: Vec::new(), capacity }
    }

    /// How many requests are pending.
    pub fn len(&self) -> (n: usize)
        ensures
            n as nat == self.contents().len(),
    {
        self.items.len()
    }

    /// Whether the queue holds its full capacity.
    pub fn is_full(&self) -> (r: bool)
        ensures
            r == (self.contents().len() >= self.cap()),
    {
        self.items.len() >= self.capacity
    }

    /// Appends a request when space remains; on a full queue it changes
    /// nothing and reports that the caller must wait.
    pub fn enqueue(&mut self, req: WriteRequest) -> (r: QueueAttempt)
        requires
            old(self).wf(),
        ensures
            final(self).wf(),
            final(self).cap() == old(self).cap(),
            old(self).contents().len() < old(self).cap() ==> r == QueueAttempt::Enqueued
                && final(self).contents() == old(self).contents().push(req),
            old(self).contents().len() >= old(self).cap() ==> r == QueueAttempt::MustWait
                && final(self).contents() == old(self).contents(),
    {
        if self.items.len() < self.capacity {
            self.items.push(req);
            QueueAttempt::Enqueued
        } else {
            QueueAttempt::MustWait
        }
    }

    /// Removes and returns the oldest pending request, if any.
    pub fn dequeue(&mut self) -> (r: Option<WriteRequest>)
        requires
            old(self).wf(),
        ensures
            final(self).wf(),
            final(self).cap() == old(self).cap(),
            old(self).contents().len() == 0 ==> r is None
                && final(self).contents() == old(self).contents(),
            old(self).contents().len() > 0 ==> r == Some(old(self).contents().first())
                && final(self).contents() == old(self).contents().drop_first(),
    {
        if self.items.len() == 0 {
            None
        } else {
            let req = self.items.remove(0);
            proof {
                assert(self.items@ =~= old(self).items@.drop_first());
            }
            Some(req)
        }
    }
}

/// Drain order follows submission order: once `k` requests have been taken
/// off a queue that held `s`, the next one taken is the `k`-th submitted,
/// and what remains is the rest of `s` in order.
pub proof fn lemma_fifo_drain(s: Seq<WriteRequest>, k: int)
    requires
        0 <= k < s.len(),
    ensures
        s.skip(k).first() == s[k],
        s.skip(k).drop_first() =~= s.skip(k + 1),
{
    assert(s.skip(k).first() == s[k]);
}

/// Backpressure resolves: a submission blocked on a full queue finds space
/// as soon as the drainer takes one request, and meanwhile nothing was
/// dropped — what the drainer took is exactly the oldest entry.
pub proof fn lemma_full_queue_frees(s: Seq<WriteRequest>, cap: nat)
    requires
        s.len() == cap,
        cap >= 1,
    ensures
        s.drop_first().len() < cap,
        s =~= seq![s.first()] + s.drop_first(),
{
}

} // verus!
