//! Packet buffers: the generic pool-backed buffer and the tagged buffer
//! variants that let receive and transmit code stay backend-agnostic.
use crate::error::DevError;
use crate::ixgbe_types::{ixgbe_packet, ixgbe_packet_mut, ixgbe_payload};
use ixgbe_driver::IxgbeNetBuf;
use vstd::prelude::*;

verus! {

/// The ethernet address of a NIC (MAC address).
#[derive(Debug, Clone, Copy)]
pub struct EthernetAddress(pub [u8; 6]);

/// Which backend a buffer or a device belongs to.
#[derive(Debug, Clone, Copy, PartialEq, Eq, Structural)]
pub enum Backend {
    /// The descriptor-ring 10G NIC.
    Ixgbe,
    /// The paravirtual virtio-net device.
    Virtio,
}

/// A generic pool-backed network buffer: a backend-internal header region
/// followed by the packet payload.
pub struct NetBuf {
    header: Vec<u8>,
    packet: Vec<u8>,
}

impl NetBuf {
    /// The header bytes.
    pub closed spec fn header_view(&self) -> Seq<u8> {
        self.header@
    }

    /// The payload bytes.
    pub closed spec fn payload(&self) -> Seq<u8> {
        self.packet@
    }

    /// A zero-filled buffer with a header of `header_len` bytes and a
    /// payload of `packet_len` bytes.
    pub fn new(header_len: usize, packet_len: usize) -> (r: Self)
        ensures
            r.header_view() == Seq::new(header_len as nat, |_i: int| 0u8),
            r.payload() == Seq::new(packet_len as nat, |_i: int| 0u8),
    {
        let header = vec![0u8; header_len];
        let packet = vec![0u8; packet_len];
        proof {
            assert(header@ =~= Seq::new(header_len as nat, |_i: int| 0u8));
            assert(packet@ =~= Seq::new(packet_len as nat, |_i: int| 0u8));
        }
        NetBuf { header, packet }
    }

    /// Length of the header region.
    pub fn header_len(&self) -> (r: usize)
        ensures
            r == self.header_view().len(),
    {
        self.header.len()
    }

    /// Length of the payload.
    pub fn packet_len(&self) -> (r: usize)
        ensures
            r == self.payload().len(),
    {
        self.packet.len()
    }

    /// The payload bytes.
    pub fn packet(&self) -> (r: &[u8])
        ensures
            r@ == self.payload(),
    {
        self.packet.as_slice()
    }

    /// The payload bytes, writable; the header is left as it is.
    pub fn packet_mut(&mut self) -> (r: &mut [u8])
        ensures
            r@ == old(self).payload(),
            final(self).payload() == final(r)@,
            final(self).header_view() == old(self).header_view(),
    {
        self.packet.as_mut_slice()
    }
}

/// Transmit buffer of one of the backends.
pub enum TxBuf {
    /// A buffer of the ring NIC's mempool.
    Ixgbe(IxgbeNetBuf),
    /// A buffer of the virtio-net device's pool.
    Virtio(NetBuf),
}

/// Receive buffer of one of the backends.
pub enum RxBuf {
    /// A buffer of the ring NIC's mempool.
    Ixgbe(IxgbeNetBuf),
    /// A buffer of the virtio-net device's pool.
    Virtio(NetBuf),
}

impl TxBuf {
    /// The backend the buffer belongs to.
    pub open spec fn backend(&self) -> Backend {
        match self {
            TxBuf::Ixgbe(_) => Backend::Ixgbe,
            TxBuf::Virtio(_) => Backend::Virtio,
        }
    }

    /// The payload bytes.
    pub open spec fn payload(&self) -> Seq<u8> {
        match self {
            TxBuf::Ixgbe(b) => ixgbe_payload(*b),
            TxBuf::Virtio(b) => b.payload(),
        }
    }

    /// The backend the buffer belongs to.
    pub fn backend_of(&self) -> (r: Backend)
        ensures
            r == self.backend(),
    {
        match self {
            TxBuf::Ixgbe(_) => Backend::Ixgbe,
            TxBuf::Virtio(_) => Backend::Virtio,
        }
    }

    /// Copies `data` into the payload, whose length it must have.
    pub fn fill(&mut self, data: &[u8])
        requires
            old(self).payload().len() == data@.len(),
        ensures
            final(self).payload() == data@,
            final(self).backend() == old(self).backend(),
    {
        let packet = self.packet_mut();
        let mut i: usize = 0;
        while i < data.len()
            invariant
                i <= data@.len(),
                packet@.len() == data@.len(),
                forall|j: int| 0 <= j < i ==> packet@[j] == data@[j],
            decreases data@.len() - i,
        {
            packet[i] = data[i];
            i = i + 1;
        }
        assert(packet@ =~= data@);
    }

    /// The ring NIC's buffer inside, or `BadState` for a buffer of another
    /// backend.
    pub fn into_ixgbe(self) -> (r: Result<IxgbeNetBuf, DevError>)
        ensures
            self matches TxBuf::Ixgbe(b) ==> r == Ok::<IxgbeNetBuf, DevError>(b),
            self is Virtio ==> r == Err::<IxgbeNetBuf, DevError>(DevError::BadState),
    {
        match self {
            TxBuf::Ixgbe(b) => Ok(b),
            TxBuf::Virtio(_) => Err(DevError::BadState),
        }
    }

    /// The payload bytes.
    pub fn packet(&self) -> (r: &[u8])
        ensures
            r@ == self.payload(),
    {
        match self {
            TxBuf::Ixgbe(b) => ixgbe_packet(b),
            TxBuf::Virtio(b) => b.packet(),
        }
    }

    /// The payload bytes, writable.
    pub fn packet_mut(&mut self) -> (r: &mut [u8])
        ensures
            r@ == old(self).payload(),
            final(self).payload() == final(r)@,
            final(self).backend() == old(self).backend(),
    {
        match self {
            TxBuf::Ixgbe(b) => ixgbe_packet_mut(b),
            TxBuf::Virtio(b) => b.packet_mut(),
        }
    }
}

impl RxBuf {
    /// The backend the buffer belongs to.
    pub open spec fn backend(&self) -> Backend {
        match self {
            RxBuf::Ixgbe(_) => Backend::Ixgbe,
            RxBuf::Virtio(_) => Backend::Virtio,
        }
    }

    /// The payload bytes.
    pub open spec fn payload(&self) -> Seq<u8> {
        match self {
            RxBuf::Ixgbe(b) => ixgbe_payload(*b),
            RxBuf::Virtio(b) => b.payload(),
        }
    }

    /// The backend the buffer belongs to.
    pub fn backend_of(&self) -> (r: Backend)
        ensures
            r == self.backend(),
    {
        match self {
            RxBuf::Ixgbe(_) => Backend::Ixgbe,
            RxBuf::Virtio(_) => Backend::Virtio,
        }
    }

    /// The payload bytes.
    pub fn packet(&self) -> (r: &[u8])
        ensures
            r@ == self.payload(),
    {
        match self {
            RxBuf::Ixgbe(b) => ixgbe_packet(b),
            RxBuf::Virtio(b) => b.packet(),
        }
    }

    /// The payload bytes, writable.
    pub fn packet_mut(&mut self) -> (r: &mut [u8])
        ensures
            r@ == old(self).payload(),
            final(self).payload() == final(r)@,
            final(self).backend() == old(self).backend(),
    {
        match self {
            RxBuf::Ixgbe(b) => ixgbe_packet_mut(b),
            RxBuf::Virtio(b) => b.packet_mut(),
        }
    }
}

} // verus!
