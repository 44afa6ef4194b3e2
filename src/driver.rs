//! The capability interface every NIC backend satisfies, and the network
//! stack's facade over one initialized device.
use crate::buffer::{Backend, EthernetAddress, RxBuf, TxBuf};
use crate::error::{DevError, DevResult};
use crate::stats::{zero_stats, DeviceStats};
use vstd::prelude::*;

verus! {

/// Operations of a network device driver, whatever its backend.
pub trait NetDriverOps: Sized {
    /// The backend the device belongs to; its buffers carry the same tag.
    spec fn backend(&self) -> Backend;

    /// The device's counters.
    spec fn stats(&self) -> DeviceStats;

    /// The device's ethernet address.
    spec fn mac(&self) -> EthernetAddress;

    /// The ethernet address of the NIC.
    fn mac_address(&self) -> (r: EthernetAddress)
        ensures
            r == self.mac(),
    ;

    /// Whether a transmit can be queued now.
    fn can_transmit(&self) -> bool;

    /// Whether a receive can succeed now.
    fn can_receive(&self) -> bool;

    /// Size of the receive queue.
    fn rx_queue_size(&self) -> usize;

    /// Size of the transmit queue.
    fn tx_queue_size(&self) -> usize;

    /// One received buffer, or `Again` when none is available now.
    fn receive(&mut self) -> (r: DevResult<RxBuf>)
        ensures
            final(self).backend() == old(self).backend(),
            r matches Ok(b) ==> b.backend() == old(self).backend(),
            r matches Err(e) ==> e == DevError::Again,
    ;

    /// Hands `buf` to the device for transmission. A buffer of another
    /// backend is refused with `BadState` and the device is left as it was;
    /// a full queue is `Again`.
    fn transmit(&mut self, buf: TxBuf) -> (r: DevResult)
        ensures
            final(self).backend() == old(self).backend(),
            buf.backend() != old(self).backend() ==> r == Err::<(), DevError>(DevError::BadState)
                && *final(self) == *old(self),
            r matches Err(e) ==> e == DevError::Again || e == DevError::BadState || e == DevError::Fatal,
    ;

    /// A transmit buffer with a payload of `size` bytes, or `NoMemory`.
    fn alloc_tx_buffer(&self, size: usize) -> (r: DevResult<TxBuf>)
        ensures
            r matches Ok(b) ==> b.backend() == self.backend() && b.payload().len() == size,
            r matches Err(e) ==> e == DevError::NoMemory,
    ;

    /// Zeroes the counters.
    fn reset_stats(&mut self)
        ensures
            final(self).backend() == old(self).backend(),
            final(self).stats() == zero_stats(),
    ;

    /// A copy of the counters.
    fn read_stats(&self) -> (r: DeviceStats)
        ensures
            r == self.stats(),
    ;
}

/// Errors the network stack sees.
#[derive(Debug, Clone, Copy, PartialEq, Eq, Structural)]
pub enum NetError {
    /// Nothing to do right now: try again.
    WouldBlock,
    /// An entity already exists.
    AlreadyExists,
    /// The device is not in a state to do this.
    BadState,
    /// An invalid argument.
    InvalidInput,
    /// An input/output error, or a fault of the hardware.
    Io,
    /// Out of buffers or memory.
    NoMemory,
    /// The device is busy.
    ResourceBusy,
    /// The operation is not supported.
    Unsupported,
}

/// The network stack's error for a device error.
pub open spec fn spec_net_error(e: DevError) -> NetError {
    match e {
        DevError::Again => NetError::WouldBlock,
        DevError::AlreadyExists => NetError::AlreadyExists,
        DevError::BadState => NetError::BadState,
        DevError::InvalidParam => NetError::InvalidInput,
        DevError::Io => NetError::Io,
        DevError::NoMemory => NetError::NoMemory,
        DevError::ResourceBusy => NetError::ResourceBusy,
        DevError::Unsupported => NetError::Unsupported,
        DevError::Fatal => NetError::Io,
    }
}

/// The network stack's error for a device error: `Again` becomes
/// `WouldBlock`, a hardware fault `Io`, the rest keep their kind.
pub fn net_error(e: DevError) -> (r: NetError)
    ensures
        r == spec_net_error(e),
{
    match e {
        DevError::Again => NetError::WouldBlock,
        DevError::AlreadyExists => NetError::AlreadyExists,
        DevError::BadState => NetError::BadState,
        DevError::InvalidParam => NetError::InvalidInput,
        DevError::Io => NetError::Io,
        DevError::NoMemory => NetError::NoMemory,
        DevError::ResourceBusy => NetError::ResourceBusy,
        DevError::Unsupported => NetError::Unsupported,
        DevError::Fatal => NetError::Io,
    }
}

/// A device result in the network stack's terms: the value handed on as it
/// is, the error mapped by `spec_net_error`.
pub open spec fn spec_net_result<T>(r: DevResult<T>) -> Result<T, NetError> {
    match r {
        Ok(v) => Ok(v),
        Err(e) => Err(spec_net_error(e)),
    }
}

/// A device result in the network stack's terms.
pub fn net_result<T>(r: DevResult<T>) -> (out: Result<T, NetError>)
    ensures
        out == spec_net_result(r),
{
    match r {
        Ok(v) => Ok(v),
        Err(e) => Err(net_error(e)),
    }
}

/// The network stack's handle on one initialized device.
pub struct BareNic<D> {
    inner: D,
}

impl<D: NetDriverOps> BareNic<D> {
    /// The device.
    pub closed spec fn device(&self) -> D {
        self.inner
    }

    /// A handle on `inner`.
    pub fn new(inner: D) -> (r: Self)
        ensures
            r.device() == inner,
    {
        BareNic { inner }
    }

    /// The MAC address of the NIC.
    pub fn get_mac_addr(&self) -> (r: EthernetAddress)
        ensures
            r == self.device().mac(),
    {
        self.inner.mac_address()
    }

    /// Zeroes the device's counters.
    pub fn reset_stats(&mut self)
        ensures
            final(self).device().stats() == zero_stats(),
            final(self).device().backend() == old(self).device().backend(),
    {
        self.inner.reset_stats()
    }

    /// A copy of the device's counters.
    pub fn read_stats(&self) -> (r: DeviceStats)
        ensures
            r == self.device().stats(),
    {
        self.inner.read_stats()
    }

    /// One received buffer, or `WouldBlock` when none is available now.
    pub fn recv(&mut self) -> (r: Result<RxBuf, NetError>)
        ensures
            final(self).device().backend() == old(self).device().backend(),
            r matches Ok(b) ==> b.backend() == old(self).device().backend(),
            r matches Err(e) ==> e == NetError::WouldBlock,
    {
        net_result(self.inner.receive())
    }

    /// Sends the packet `buf`: a transmit buffer of its length is
    /// allocated, filled with it and handed to the device.
    pub fn send(&mut self, buf: &[u8]) -> (r: Result<(), NetError>)
        ensures
            final(self).device().backend() == old(self).device().backend(),
            r matches Err(e) ==> e == NetError::NoMemory || e == NetError::WouldBlock || e
                == NetError::BadState || e == NetError::Io,
    {
        let mut tx = match self.inner.alloc_tx_buffer(buf.len()) {
            Ok(tx) => tx,
            Err(e) => return Err(net_error(e)),
        };
        tx.fill(buf);
        net_result(self.inner.transmit(tx))
    }
}

/// Sets up the network stack's handle on `net_dev`.
pub fn init<D: NetDriverOps>(net_dev: D) -> (r: BareNic<D>)
    ensures
        r.device() == net_dev,
{
    BareNic::new(net_dev)
}

/// The MAC address of the stack's NIC.
pub fn get_mac_addr<D: NetDriverOps>(nic: &BareNic<D>) -> (r: EthernetAddress)
    ensures
        r == nic.device().mac(),
{
    nic.get_mac_addr()
}

/// Zeroes the counters of the stack's NIC.
pub fn reset_stats<D: NetDriverOps>(nic: &mut BareNic<D>)
    ensures
        final(nic).device().stats() == zero_stats(),
        final(nic).device().backend() == old(nic).device().backend(),
{
    nic.reset_stats()
}

/// A copy of the counters of the stack's NIC.
pub fn read_stats<D: NetDriverOps>(nic: &BareNic<D>) -> (r: DeviceStats)
    ensures
        r == nic.device().stats(),
{
    nic.read_stats()
}

/// One packet received by the stack's NIC, or `WouldBlock`.
pub fn recv<D: NetDriverOps>(nic: &mut BareNic<D>) -> (r: Result<RxBuf, NetError>)
    ensures
        final(nic).device().backend() == old(nic).device().backend(),
        r matches Ok(b) ==> b.backend() == old(nic).device().backend(),
        r matches Err(e) ==> e == NetError::WouldBlock,
{
    nic.recv()
}

/// Sends a packet through the stack's NIC.
pub fn send<D: NetDriverOps>(nic: &mut BareNic<D>, buf: &[u8]) -> (r: Result<(), NetError>)
    ensures
        final(nic).device().backend() == old(nic).device().backend(),
        r matches Err(e) ==> e == NetError::NoMemory || e == NetError::WouldBlock || e
            == NetError::BadState || e == NetError::Io,
{
    nic.send(buf)
}

} // verus!
