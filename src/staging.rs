use crate::error::{DevError, DevResult};
use crate::ixgbe_types::RingError;
use std::collections::VecDeque;
use vstd::prelude::*;

verus! {

/// The largest number of buffers fetched from the ring in one batch.
pub const RECV_BATCH_SIZE: usize = 64;

/// What a receive does first: deliver a staged buffer, or ask the ring for
/// a batch of at most the given size.
pub enum RxStep<T> {
    /// The oldest staged buffer.
    Ready(T),
    /// Nothing is staged: fetch a batch of at most this many buffers into the
    /// staging queue, then finish the receive.
    Fetch(usize),
}

/// Relation between the staged buffers before and after the first step of a
/// receive, and the step taken.
pub open spec fn begin_receive_post<T>(pre: Seq<T>, post: Seq<T>, r: RxStep<T>) -> bool {
    if pre.len() > 0 {
        r == RxStep::Ready(pre[0]) && post == pre.drop_first()
    } else {
        r == RxStep::<T>::Fetch(RECV_BATCH_SIZE) && post == pre
    }
}

/// Relation between the staged buffers before and after a receive is
/// finished, what the ring reported for the fetch, and the result.
pub open spec fn finish_receive_post<T>(
    pre: Seq<T>,
    post: Seq<T>,
    fetched: Result<usize, RingError>,
    r: DevResult<T>,
) -> bool {
    if fetched is Ok && pre.len() > 0 {
        r == Ok::<T, DevError>(pre[0]) && post == pre.drop_first()
    } else {
        r == Err::<T, DevError>(DevError::Again) && post == pre
    }
}

/// Receive buffers already fetched from the hardware ring and not yet
/// handed to the caller, in arrival order.
pub struct RxStaging<T> {
    queue: VecDeque<T>,
}

impl<T> RxStaging<T> {
    /// The staged buffers, front first.
    pub closed spec fn view(&self) -> Seq<T> {
        self.queue@
    }

    /// An empty staging queue.
    pub fn new() -> (r: Self)
        ensures
            r@ == Seq::<T>::empty(),
    {
        RxStaging { queue: VecDeque::new() }
    }

    /// Number of staged buffers.
    pub fn len(&self) -> (r: usize)
        ensures
            r == self@.len(),
    {
        self.queue.len()
    }

    /// Whether no buffer is staged.
    pub fn is_empty(&self) -> (r: bool)
        ensures
            r == (self@.len() == 0),
    {
        self.queue.len() == 0
    }

    /// Appends a buffer behind those already staged.
    pub fn push_back(&mut self, buf: T)
        ensures
            final(self)@ == old(self)@.push(buf),
    {
        self.queue.push_back(buf);
    }

    /// Removes and returns the oldest staged buffer.
    pub fn pop_front(&mut self) -> (r: Option<T>)
        ensures
            old(self)@.len() == 0 ==> r is None && final(self)@ == old(self)@,
            old(self)@.len() > 0 ==> r == Some(old(self)@[0]) && final(self)@ == old(self)@.drop_first(),
    {
        self.queue.pop_front()
    }

    /// First step of a receive: the oldest staged buffer if there is one;
    /// otherwise a request to fetch a batch.
    pub fn begin_receive(&mut self) -> (r: RxStep<T>)
        ensures
            begin_receive_post(old(self)@, final(self)@, r),
    {
        match self.queue.pop_front() {
            Some(buf) => RxStep::Ready(buf),
            None => RxStep::Fetch(RECV_BATCH_SIZE),
        }
    }

    /// Finishes a receive after the fetch a `Fetch` step asked for;
    /// `fetched` is what the ring reported. A failed or empty fetch is
    /// `Again`.
    pub fn finish_receive(&mut self, fetched: Result<usize, RingError>) -> (r: DevResult<T>)
        ensures
            finish_receive_post(old(self)@, final(self)@, fetched, r),
    {
        if fetched.is_err() {
            return Err(DevError::Again);
        }
        match self.queue.pop_front() {
            Some(buf) => Ok(buf),
            None => Err(DevError::Again),
        }
    }
}

/// A batch fetched into an empty staging queue is delivered whole, in
/// arrival order, one buffer per receive: the receive that finishes the
/// fetch returns the first buffer, and each following receive returns the
/// next one without asking for another fetch, until the batch is used up.
pub proof fn lemma_batch_delivered_in_order<T>(
    batch: Seq<T>,
    fetched: usize,
    first: DevResult<T>,
    states: Seq<Seq<T>>,
    steps: Seq<RxStep<T>>,
)
    requires
        batch.len() > 0,
        finish_receive_post(batch, states[0], Ok(fetched), first),
        states.len() == steps.len() + 1,
        steps.len() < batch.len(),
        forall|i: int| 0 <= i < steps.len() ==> begin_receive_post(states[i], #[trigger] states[i + 1], steps[i]),
    ensures
        first == Ok::<T, DevError>(batch[0]),
        forall|i: int| 0 <= i < steps.len() ==> #[trigger] steps[i] == RxStep::Ready(batch[i + 1]),
        forall|i: int| 0 <= i < states.len() ==> #[trigger] states[i] == batch.skip(i + 1),
{
    assert(states[0] =~= batch.skip(1));
    assert forall|i: int| 0 <= i < states.len() implies #[trigger] states[i] == batch.skip(i + 1) by {
        lemma_staged_suffix(batch, states, steps, i);
    }
    assert forall|i: int| 0 <= i < steps.len() implies #[trigger] steps[i] == RxStep::Ready(batch[i + 1]) by {
        lemma_staged_suffix(batch, states, steps, i);
        assert(begin_receive_post(states[i], states[i + 1], steps[i]));
    }
}

proof fn lemma_staged_suffix<T>(batch: Seq<T>, states: Seq<Seq<T>>, steps: Seq<RxStep<T>>, k: int)
    requires
        states[0] == batch.skip(1),
        states.len() == steps.len() + 1,
        steps.len() < batch.len(),
        forall|i: int| 0 <= i < steps.len() ==> begin_receive_post(states[i], #[trigger] states[i + 1], steps[i]),
        0 <= k < states.len(),
    ensures
        states[k] == batch.skip(k + 1),
    decreases k,
{
    if k > 0 {
        lemma_staged_suffix(batch, states, steps, k - 1);
        assert(begin_receive_post(states[k - 1], states[k], steps[k - 1]));
        assert(states[k] =~= batch.skip(k + 1));
    }
}

} // verus!
