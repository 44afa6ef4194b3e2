use driver_net::buffer::{Backend, EthernetAddress, NetBuf, RxBuf, TxBuf};
use driver_net::driver::{self, net_error, net_result, BareNic, NetDriverOps, NetError};
use driver_net::error::DevError;
use driver_net::ixgbe::{MAX_TX_PAYLOAD, MEM_POOL_ENTRIES, MEM_POOL_ENTRY_SIZE};
use driver_net::ixgbe_types::PACKET_HEADROOM;
use driver_net::stats::DeviceStats;

/// A virtio-style device that loops transmitted packets back to its
/// receive side.
struct Loopback {
    queued: Vec<Vec<u8>>,
    stats: DeviceStats,
    capacity: usize,
}

impl Loopback {
    fn new(capacity: usize) -> Self {
        Loopback { queued: Vec::new(), stats: DeviceStats::zero(), capacity }
    }
}

impl NetDriverOps for Loopback {
    fn backend(&self) -> Backend {
        Backend::Virtio
    }
    fn stats(&self) -> DeviceStats {
        self.stats
    }
    fn mac(&self) -> EthernetAddress {
        EthernetAddress([0x52, 0x54, 0, 0x12, 0x34, 0x56])
    }
    fn mac_address(&self) -> EthernetAddress {
        self.mac()
    }
    fn can_transmit(&self) -> bool {
        self.queued.len() < self.capacity
    }
    fn can_receive(&self) -> bool {
        !self.queued.is_empty()
    }
    fn rx_queue_size(&self) -> usize {
        self.capacity
    }
    fn tx_queue_size(&self) -> usize {
        self.capacity
    }
    fn receive(&mut self) -> Result<RxBuf, DevError> {
        if self.queued.is_empty() {
            return Err(DevError::Again);
        }
        let data = self.queued.remove(0);
        let mut b = NetBuf::new(12, data.len());
        b.packet_mut().copy_from_slice(&data);
        self.stats.add_rx(data.len());
        Ok(RxBuf::Virtio(b))
    }
    fn transmit(&mut self, buf: TxBuf) -> Result<(), DevError> {
        match buf {
            TxBuf::Ixgbe(_) => Err(DevError::BadState),
            TxBuf::Virtio(b) => {
                if self.queued.len() >= self.capacity {
                    return Err(DevError::Again);
                }
                self.stats.add_tx(b.packet_len());
                self.queued.push(b.packet().to_vec());
                Ok(())
            }
        }
    }
    fn alloc_tx_buffer(&self, size: usize) -> Result<TxBuf, DevError> {
        Ok(TxBuf::Virtio(NetBuf::new(12, size)))
    }
    fn reset_stats(&mut self) {
        self.stats = DeviceStats::zero();
    }
    fn read_stats(&self) -> DeviceStats {
        self.stats
    }
}

#[test]
fn net_buf_payload_excludes_header() {
    let mut b = NetBuf::new(12, 4);
    assert_eq!(b.header_len(), 12);
    assert_eq!(b.packet_len(), 4);
    assert_eq!(b.packet(), &[0, 0, 0, 0]);
    b.packet_mut()[1] = 7;
    assert_eq!(b.packet(), &[0, 7, 0, 0]);
}

#[test]
fn buffer_variants_know_their_backend() {
    let tx = TxBuf::Virtio(NetBuf::new(0, 3));
    assert_eq!(tx.backend_of(), Backend::Virtio);
    assert_eq!(tx.packet().len(), 3);
    let mut rx = RxBuf::Virtio(NetBuf::new(2, 1));
    rx.packet_mut()[0] = 9;
    assert_eq!(rx.packet(), &[9]);
    assert_eq!(rx.backend_of(), Backend::Virtio);
}

#[test]
fn fill_copies_the_whole_payload() {
    let mut tx = TxBuf::Virtio(NetBuf::new(12, 4));
    tx.fill(&[9, 8, 7, 6]);
    assert_eq!(tx.packet(), &[9, 8, 7, 6]);
}

#[test]
fn foreign_buffer_is_refused_by_the_ring_adapter() {
    let tx = TxBuf::Virtio(NetBuf::new(12, 60));
    assert!(matches!(tx.into_ixgbe(), Err(DevError::BadState)));
}

#[test]
fn every_device_error_has_a_stack_error() {
    assert_eq!(net_error(DevError::Again), NetError::WouldBlock);
    assert_eq!(net_error(DevError::AlreadyExists), NetError::AlreadyExists);
    assert_eq!(net_error(DevError::BadState), NetError::BadState);
    assert_eq!(net_error(DevError::InvalidParam), NetError::InvalidInput);
    assert_eq!(net_error(DevError::Io), NetError::Io);
    assert_eq!(net_error(DevError::NoMemory), NetError::NoMemory);
    assert_eq!(net_error(DevError::ResourceBusy), NetError::ResourceBusy);
    assert_eq!(net_error(DevError::Unsupported), NetError::Unsupported);
    assert_eq!(net_error(DevError::Fatal), NetError::Io);
}

#[test]
fn stats_count_and_wrap() {
    let mut s = DeviceStats::zero();
    s.add_rx(60);
    s.add_rx(40);
    s.add_tx(14);
    assert_eq!(s, DeviceStats { rx_pkts: 2, tx_pkts: 1, rx_bytes: 100, tx_bytes: 14 });
    let mut w = DeviceStats { rx_pkts: u64::MAX, tx_pkts: u64::MAX, rx_bytes: u64::MAX - 1, tx_bytes: 0 };
    w.add_rx(3);
    w.add_tx(0);
    assert_eq!(w.rx_pkts, 0);
    assert_eq!(w.rx_bytes, 1);
    assert_eq!(w.tx_pkts, 0);
}

#[test]
fn facade_recv_maps_again_to_would_block() {
    let mut nic = driver::init(Loopback::new(4));
    assert!(matches!(driver::recv(&mut nic), Err(NetError::WouldBlock)));
}

#[test]
fn facade_send_copies_the_packet() {
    let mut nic: BareNic<Loopback> = driver::init(Loopback::new(4));
    assert_eq!(driver::send(&mut nic, &[1, 2, 3]), Ok(()));
    match driver::recv(&mut nic) {
        Ok(b) => assert_eq!(b.packet(), &[1, 2, 3]),
        Err(e) => panic!("unexpected {:?}", e),
    }
}

#[test]
fn facade_send_maps_full_queue_to_would_block() {
    let mut nic = driver::init(Loopback::new(1));
    assert_eq!(driver::send(&mut nic, &[1]), Ok(()));
    assert_eq!(driver::send(&mut nic, &[2]), Err(NetError::WouldBlock));
}

#[test]
fn facade_stats_read_and_reset() {
    let mut nic = driver::init(Loopback::new(4));
    driver::send(&mut nic, &[0u8; 60]).unwrap();
    assert_eq!(driver::read_stats(&nic).tx_bytes, 60);
    assert_eq!(driver::read_stats(&nic).tx_pkts, 1);
    driver::reset_stats(&mut nic);
    assert_eq!(driver::read_stats(&nic), DeviceStats::zero());
}

#[test]
fn facade_mac_address() {
    let nic = driver::init(Loopback::new(1));
    assert_eq!(driver::get_mac_addr(&nic).0, [0x52, 0x54, 0, 0x12, 0x34, 0x56]);
}

#[test]
fn ring_buffer_layout_constants() {
    assert_eq!(PACKET_HEADROOM, ixgbe_driver::PACKET_HEADROOM);
    assert_eq!(MAX_TX_PAYLOAD, 4064);
    assert_eq!(MEM_POOL_ENTRIES, 2048);
    assert_eq!(MEM_POOL_ENTRY_SIZE, 4096);
}

#[test]
fn results_hand_the_value_on() {
    assert_eq!(net_result::<u32>(Ok(5)), Ok(5));
    assert_eq!(net_result::<u32>(Err(DevError::Again)), Err(NetError::WouldBlock));
    assert_eq!(net_result::<u32>(Err(DevError::NoMemory)), Err(NetError::NoMemory));
}
