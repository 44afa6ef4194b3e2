//! The outside ring driver's types as this crate sees them, and the calls
//! made into it.
use ixgbe_driver::{IxgbeHal, IxgbeNetBuf, MemPool};
use std::sync::Arc;
use vstd::prelude::*;

verus! {

#[verifier::external_type_specification]
#[verifier::external_body]
pub struct ExIxgbeNetBuf(IxgbeNetBuf);

#[verifier::external_type_specification]
#[verifier::external_body]
pub struct ExMemPool(MemPool);

/// The ring driver's error codes, as this crate names them.
#[derive(Debug, Clone, Copy, PartialEq, Eq, Structural)]
pub enum RingError {
    /// The queue size is not a power of two.
    QueueNotAligned,
    /// No free descriptor in the queue.
    QueueFull,
    /// The memory pool is exhausted or a DMA allocation failed.
    NoMemory,
    /// An allocated page is not aligned.
    PageNotAligned,
    /// No packet is available.
    NotReady,
    /// The queue does not exist.
    InvalidQueue,
}

/// Unused headroom the ring driver keeps in front of each pool buffer's
/// payload.
pub const PACKET_HEADROOM: usize = 32;

/// The size of the pages a mempool's slots must evenly divide.
pub const HUGE_PAGE_SIZE: usize = 0x20_0000;

/// The size of each buffer slot of a mempool.
pub uninterp spec fn mempool_entry_size(p: MemPool) -> usize;

/// The number of buffer slots of a mempool.
pub uninterp spec fn mempool_capacity(p: MemPool) -> usize;

/// The payload bytes a ring-driver buffer holds.
pub uninterp spec fn ixgbe_payload(b: IxgbeNetBuf) -> Seq<u8>;

/// Relies on `IxgbeNetBuf::packet`: a view of the payload bytes.
#[verifier::external_body]
pub(crate) fn ixgbe_packet(b: &IxgbeNetBuf) -> (r: &[u8])
    ensures
        r@ == ixgbe_payload(*b),
{
    b.packet()
}

/// Relies on `IxgbeNetBuf::packet_mut`: a mutable view of the payload
/// bytes; what is written through it is the buffer's new payload.
#[verifier::external_body]
pub(crate) fn ixgbe_packet_mut(b: &mut IxgbeNetBuf) -> (r: &mut [u8])
    ensures
        r@ == ixgbe_payload(*old(b)),
        ixgbe_payload(*final(b)) == final(r)@,
{
    b.packet_mut()
}

/// Relies on `IxgbeNetBuf::packet_len`: the payload length.
#[verifier::external_body]
pub(crate) fn ixgbe_packet_len(b: &IxgbeNetBuf) -> (r: usize)
    ensures
        r == ixgbe_payload(*b).len(),
{
    b.packet_len()
}

/// Relies on `MemPool::allocate`: a pool of `entries` slots of `size`
/// bytes each (2048 when `size` is 0); `None` exactly for a slot size that
/// does not divide the 2 MiB huge page. The DMA memory comes from the HAL
/// `H`, whose failures the ring driver does not report.
#[verifier::external_body]
pub(crate) fn mempool_allocate<H: IxgbeHal>(entries: usize, size: usize) -> (r: Option<Arc<MemPool>>)
    requires
        entries * (if size == 0 { 2048 } else { size as int }) <= usize::MAX,
    ensures
        r matches Some(p) ==> mempool_entry_size(*p) == (if size == 0 { 2048 } else { size })
            && mempool_capacity(*p) == entries,
        r is Some <==> HUGE_PAGE_SIZE as int % (if size == 0 { 2048 } else { size as int }) == 0,
{
    MemPool::allocate::<H>(entries, size).ok()
}

/// Relies on `IxgbeNetBuf::alloc`: a buffer whose payload is `size` bytes
/// taken from the pool, or `None` when the pool is exhausted, which it also
/// is for a `size` that does not fit in a slot after the headroom.
#[verifier::external_body]
pub(crate) fn netbuf_alloc(pool: &Arc<MemPool>, size: usize) -> (r: Option<IxgbeNetBuf>)
    requires
        mempool_entry_size(**pool) >= PACKET_HEADROOM,
    ensures
        r matches Some(b) ==> ixgbe_payload(b).len() == size,
        size > mempool_entry_size(**pool) - PACKET_HEADROOM ==> r is None,
{
    IxgbeNetBuf::alloc(pool, size).ok()
}

} // verus!
