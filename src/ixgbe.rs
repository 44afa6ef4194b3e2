//! The adapter for the descriptor-ring 10G NIC: receive batching and
//! staging, mempool-backed transmit allocation, statistics, and the mapping
//! of the ring driver's errors onto the common taxonomy.
//!
//! The ring driver's device handle is driven by the caller: each operation
//! that needs the hardware is split into a step that decides what to ask of
//! the ring and a step that takes what the ring answered.
use crate::buffer::{RxBuf, TxBuf};
use crate::error::{DevError, DevResult};
use crate::ixgbe_types::{
    ixgbe_packet_len, ixgbe_payload, mempool_allocate, mempool_capacity, mempool_entry_size, HUGE_PAGE_SIZE, netbuf_alloc, RingError,
    PACKET_HEADROOM,
};
use crate::staging::{RxStaging, RxStep, RECV_BATCH_SIZE};
use crate::stats::{zero_stats, DeviceStats};
use ixgbe_driver::{IxgbeHal, IxgbeNetBuf, MemPool};
use std::sync::Arc;
use vstd::prelude::*;

verus! {

/// Number of buffer slots of the adapter's mempool.
pub const MEM_POOL_ENTRIES: usize = 2048;

/// Size in bytes of each slot of the adapter's mempool.
pub const MEM_POOL_ENTRY_SIZE: usize = 4096;

/// The largest payload a transmit buffer can hold.
pub const MAX_TX_PAYLOAD: usize = MEM_POOL_ENTRY_SIZE - PACKET_HEADROOM;

/// The transmit and receive queue the adapter uses.
pub const QUEUE_ID: u16 = 0;

/// The adapter before and after the first step of a receive, and the step:
/// the oldest staged buffer, counted as received, or a request for a batch
/// when nothing is staged.
pub open spec fn begin_receive_post(pre: IxgbeNic, post: IxgbeNic, r: RxStep<RxBuf>) -> bool {
    &&& post.pool() == pre.pool()
    &&& if pre.staged().len() > 0 {
        &&& r == RxStep::Ready(RxBuf::Ixgbe(pre.staged()[0]))
        &&& post.staged() == pre.staged().drop_first()
        &&& post.stats() == pre.stats().count_rx(ixgbe_payload(pre.staged()[0]).len() as usize)
    } else {
        &&& r == RxStep::<RxBuf>::Fetch(RECV_BATCH_SIZE)
        &&& post.staged() == pre.staged()
        &&& post.stats() == pre.stats()
    }
}

/// The adapter before and after a receive is finished, what the ring
/// reported for the fetch, and the result: the first fetched buffer, or
/// `Again` after a failed or empty fetch.
pub open spec fn finish_receive_post(
    pre: IxgbeNic,
    post: IxgbeNic,
    fetched: Result<usize, RingError>,
    r: DevResult<RxBuf>,
) -> bool {
    &&& post.pool() == pre.pool()
    &&& if fetched is Ok && pre.staged().len() > 0 {
        &&& r == Ok::<RxBuf, DevError>(RxBuf::Ixgbe(pre.staged()[0]))
        &&& post.staged() == pre.staged().drop_first()
        &&& post.stats() == pre.stats().count_rx(ixgbe_payload(pre.staged()[0]).len() as usize)
    } else {
        &&& r == Err::<RxBuf, DevError>(DevError::Again)
        &&& post.staged() == pre.staged()
        &&& post.stats() == pre.stats()
    }
}

/// Adapter state of one ring NIC: its transmit mempool, the mempool its
/// receive ring refills from, the receive staging queue and the counters.
pub struct IxgbeNic {
    mempool: Arc<MemPool>,
    rx_mempool: Arc<MemPool>,
    rx_staging: RxStaging<IxgbeNetBuf>,
    stats: DeviceStats,
}

impl IxgbeNic {
    /// The mempool slots have the configured size.
    pub closed spec fn wf(&self) -> bool {
        mempool_entry_size(*self.mempool) == MEM_POOL_ENTRY_SIZE
    }

    /// Receive buffers fetched from the ring and not yet delivered, oldest
    /// first.
    pub closed spec fn staged(&self) -> Seq<IxgbeNetBuf> {
        self.rx_staging@
    }

    /// The counters.
    pub closed spec fn stats(&self) -> DeviceStats {
        self.stats
    }

    /// The transmit mempool.
    pub closed spec fn pool(&self) -> MemPool {
        *self.mempool
    }

    /// The receive ring's mempool.
    pub closed spec fn rx_pool(&self) -> MemPool {
        *self.rx_mempool
    }

    /// Sets up a transmit mempool and a receive mempool, each of
    /// `MEM_POOL_ENTRIES` slots of `MEM_POOL_ENTRY_SIZE` bytes; the staging
    /// queue starts empty and the counters at zero. It always succeeds: the
    /// slot size divides the huge page.
    pub fn init<H: IxgbeHal>() -> (r: DevResult<IxgbeNic>)
        ensures
            r matches Ok(nic) && nic.wf() && nic.staged() == Seq::<IxgbeNetBuf>::empty()
                && nic.stats() == zero_stats() && mempool_capacity(nic.pool()) == MEM_POOL_ENTRIES
                && mempool_capacity(nic.rx_pool()) == MEM_POOL_ENTRIES
                && mempool_entry_size(nic.rx_pool()) == MEM_POOL_ENTRY_SIZE,
    {
        assert(MEM_POOL_ENTRIES * MEM_POOL_ENTRY_SIZE <= usize::MAX);
        assert(HUGE_PAGE_SIZE as int % MEM_POOL_ENTRY_SIZE as int == 0);
        let mempool = mempool_allocate::<H>(MEM_POOL_ENTRIES, MEM_POOL_ENTRY_SIZE).unwrap();
        let rx_mempool = mempool_allocate::<H>(MEM_POOL_ENTRIES, MEM_POOL_ENTRY_SIZE).unwrap();
        Ok(IxgbeNic { mempool, rx_mempool, rx_staging: RxStaging::new(), stats: DeviceStats::zero() })
    }

    /// The receive ring's mempool, to hand to the ring driver when its
    /// device is set up.
    pub fn rx_mempool(&self) -> (r: &Arc<MemPool>)
        ensures
            **r == self.rx_pool(),
    {
        &self.rx_mempool
    }

    /// Whether a receive can succeed now: a buffer is staged, or the ring
    /// reported (`ring_ready`) that a packet waits.
    pub fn can_receive(&self, ring_ready: Result<bool, RingError>) -> (r: bool)
        ensures
            r == (self.staged().len() > 0 || ring_ready == Ok::<bool, RingError>(true)),
    {
        self.rx_staging.len() > 0 || matches!(ring_ready, Ok(true))
    }

    /// Whether a transmit can be queued now, given what the ring reported.
    pub fn can_transmit(&self, ring_ready: Result<bool, RingError>) -> (r: bool)
        ensures
            r == (ring_ready == Ok::<bool, RingError>(true)),
    {
        matches!(ring_ready, Ok(true))
    }

    /// First step of a receive: the oldest staged buffer, counted as
    /// received; or, when nothing is staged, a request to fetch a batch from
    /// the receive queue into the staging queue with `stage`.
    pub fn receive(&mut self) -> (r: RxStep<RxBuf>)
        ensures
            begin_receive_post(*old(self), *final(self), r),
    {
        match self.rx_staging.begin_receive() {
            RxStep::Ready(buf) => {
                let len: usize = ixgbe_packet_len(&buf);
                self.stats.add_rx(len);
                RxStep::Ready(RxBuf::Ixgbe(buf))
            },
            RxStep::Fetch(n) => RxStep::Fetch(n),
        }
    }

    /// Appends a buffer the ring handed over during a fetch.
    pub fn stage(&mut self, buf: IxgbeNetBuf)
        ensures
            final(self).staged() == old(self).staged().push(buf),
            final(self).stats() == old(self).stats(),
            final(self).pool() == old(self).pool(),
    {
        self.rx_staging.push_back(buf);
    }

    /// Finishes a receive whose first step asked for a fetch; `fetched` is
    /// what the ring reported. The first fetched buffer is delivered and the
    /// rest stay staged; a failed or empty fetch is `Again`.
    pub fn finish_receive(&mut self, fetched: Result<usize, RingError>) -> (r: DevResult<RxBuf>)
        ensures
            finish_receive_post(*old(self), *final(self), fetched, r),
    {
        match self.rx_staging.finish_receive(fetched) {
            Ok(buf) => {
                let len: usize = ixgbe_packet_len(&buf);
                self.stats.add_rx(len);
                Ok(RxBuf::Ixgbe(buf))
            },
            Err(e) => Err(e),
        }
    }

    /// First step of a transmit: the ring buffer to queue on the transmit
    /// queue. A buffer of another backend is refused with `BadState` and
    /// nothing is queued.
    pub fn transmit(&self, buf: TxBuf) -> (r: DevResult<IxgbeNetBuf>)
        ensures
            buf matches TxBuf::Ixgbe(b) ==> r == Ok::<IxgbeNetBuf, DevError>(b),
            buf is Virtio ==> r == Err::<IxgbeNetBuf, DevError>(DevError::BadState),
    {
        buf.into_ixgbe()
    }

    /// Finishes a transmit of `len` bytes; `sent` is what the ring's send
    /// reported, a full queue being `Again`. Any other ring error means the
    /// device state may be corrupt: the caller must abort rather than come
    /// here.
    pub fn finish_transmit(&mut self, len: usize, sent: Result<(), RingError>) -> (r: DevResult)
        requires
            sent is Ok || sent == Err::<(), RingError>(RingError::QueueFull),
        ensures
            final(self).pool() == old(self).pool(),
            final(self).staged() == old(self).staged(),
            sent is Ok ==> r is Ok && final(self).stats() == old(self).stats().count_tx(len),
            sent is Err ==> r == Err::<(), DevError>(DevError::Again) && final(self).stats() == old(
                self,
            ).stats(),
    {
        match sent {
            Ok(()) => {
                self.stats.add_tx(len);
                Ok(())
            },
            Err(_) => Err(DevError::Again),
        }
    }

    /// A transmit buffer with a payload of `size` bytes from the mempool.
    /// Fails with `NoMemory` when the pool is exhausted, and always when
    /// `size` exceeds what a slot holds.
    pub fn alloc_tx_buffer(&self, size: usize) -> (r: DevResult<TxBuf>)
        requires
            self.wf(),
        ensures
            r matches Ok(b) ==> b is Ixgbe && b.payload().len() == size,
            r matches Err(e) ==> e == DevError::NoMemory,
            size > MAX_TX_PAYLOAD ==> r is Err,
    {
        match netbuf_alloc(&self.mempool, size) {
            Some(b) => Ok(TxBuf::Ixgbe(b)),
            None => Err(DevError::NoMemory),
        }
    }

    /// Zeroes the counters.
    pub fn reset_stats(&mut self)
        ensures
            final(self).stats() == zero_stats(),
            final(self).staged() == old(self).staged(),
            final(self).pool() == old(self).pool(),
    {
        self.stats = DeviceStats::zero();
    }

    /// A copy of the counters.
    pub fn read_stats(&self) -> (r: DeviceStats)
        ensures
            r == self.stats(),
    {
        self.stats
    }
}

/// A batch the ring hands over to an adapter with nothing staged is
/// delivered whole, in arrival order, one buffer per receive: the receive
/// that finishes the fetch returns the first buffer, each following receive
/// returns the next one without asking for a fetch, and once the batch is
/// used up nothing is staged, so the next receive asks for a new batch.
pub proof fn lemma_adapter_batch_in_order(
    batch: Seq<IxgbeNetBuf>,
    fills: Seq<IxgbeNic>,
    fetched: usize,
    first: DevResult<RxBuf>,
    states: Seq<IxgbeNic>,
    steps: Seq<RxStep<RxBuf>>,
)
    requires
        batch.len() > 0,
        fills.len() == batch.len() + 1,
        fills[0].staged().len() == 0,
        forall|i: int| 0 <= i < batch.len() ==> #[trigger] fills[i + 1].staged() == fills[i].staged().push(batch[i]),
        finish_receive_post(fills[batch.len() as int], states[0], Ok(fetched), first),
        states.len() == steps.len() + 1,
        steps.len() < batch.len(),
        forall|i: int| 0 <= i < steps.len() ==> begin_receive_post(states[i], #[trigger] states[i + 1], steps[i]),
    ensures
        first == Ok::<RxBuf, DevError>(RxBuf::Ixgbe(batch[0])),
        forall|i: int| 0 <= i < steps.len() ==> #[trigger] steps[i] == RxStep::Ready(RxBuf::Ixgbe(batch[i + 1])),
        forall|i: int| 0 <= i < states.len() ==> #[trigger] states[i].staged() == batch.skip(i + 1),
        steps.len() == batch.len() - 1 ==> states[steps.len() as int].staged().len() == 0,
{
    assert forall|k: int| 0 <= k <= batch.len() implies #[trigger] fills[k].staged() == batch.take(k) by {
        lemma_fills_prefix(batch, fills, k);
    }
    assert(batch.take(batch.len() as int) =~= batch);
    let staged = states.map_values(|n: IxgbeNic| n.staged());
    let ring_steps = steps.map_values(|st: RxStep<RxBuf>| ring_step(st));
    assert forall|i: int| 0 <= i < ring_steps.len() implies crate::staging::begin_receive_post(
        staged[i],
        #[trigger] staged[i + 1],
        ring_steps[i],
    ) by {
        assert(begin_receive_post(states[i], states[i + 1], steps[i]));
    }
    crate::staging::lemma_batch_delivered_in_order(batch, fetched, ring_result(first), staged, ring_steps);
    assert forall|i: int| 0 <= i < states.len() implies #[trigger] states[i].staged() == batch.skip(i + 1) by {
        assert(staged[i] == states[i].staged());
    }
    assert forall|i: int| 0 <= i < steps.len() implies #[trigger] steps[i] == RxStep::Ready(
        RxBuf::Ixgbe(batch[i + 1]),
    ) by {
        assert(begin_receive_post(states[i], states[i + 1], steps[i]));
        assert(ring_steps[i] == ring_step(steps[i]));
    }
}

/// A receive step with the ring buffer taken out of its variant.
spec fn ring_step(st: RxStep<RxBuf>) -> RxStep<IxgbeNetBuf> {
    match st {
        RxStep::Ready(RxBuf::Ixgbe(b)) => RxStep::Ready(b),
        RxStep::Ready(RxBuf::Virtio(_)) => RxStep::Fetch(0),
        RxStep::Fetch(n) => RxStep::Fetch(n),
    }
}

/// A receive result with the ring buffer taken out of its variant.
spec fn ring_result(r: DevResult<RxBuf>) -> DevResult<IxgbeNetBuf> {
    match r {
        Ok(RxBuf::Ixgbe(b)) => Ok(b),
        Ok(RxBuf::Virtio(_)) => Err(DevError::BadState),
        Err(e) => Err(e),
    }
}

proof fn lemma_fills_prefix(batch: Seq<IxgbeNetBuf>, fills: Seq<IxgbeNic>, k: int)
    requires
        fills.len() == batch.len() + 1,
        fills[0].staged().len() == 0,
        forall|i: int| 0 <= i < batch.len() ==> #[trigger] fills[i + 1].staged() == fills[i].staged().push(batch[i]),
        0 <= k <= batch.len(),
    ensures
        fills[k].staged() == batch.take(k),
    decreases k,
{
    if k == 0 {
        assert(fills[0].staged() =~= batch.take(0));
    } else {
        lemma_fills_prefix(batch, fills, k - 1);
        assert(fills[(k - 1) + 1].staged() == fills[k - 1].staged().push(batch[k - 1]));
        assert(fills[k].staged() =~= batch.take(k));
    }
}

} // verus!
