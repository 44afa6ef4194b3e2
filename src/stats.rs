use vstd::prelude::*;

verus! {

/// Packet and byte counters of a device, copied out on read.
#[derive(Debug, Clone, Copy, PartialEq, Eq, Structural)]
pub struct DeviceStats {
    /// Received packets.
    pub rx_pkts: u64,
    /// Transmitted packets.
    pub tx_pkts: u64,
    /// Received bytes.
    pub rx_bytes: u64,
    /// Transmitted bytes.
    pub tx_bytes: u64,
}

/// Counters that have counted nothing.
pub open spec fn zero_stats() -> DeviceStats {
    DeviceStats { rx_pkts: 0, tx_pkts: 0, rx_bytes: 0, tx_bytes: 0 }
}

impl DeviceStats {
    /// The counters after one more received packet of `len` bytes; they wrap
    /// around at the top of their range.
    pub open spec fn count_rx(self, len: usize) -> DeviceStats {
        DeviceStats {
            rx_pkts: ((self.rx_pkts + 1) % 0x1_0000_0000_0000_0000) as u64,
            rx_bytes: ((self.rx_bytes + len) % 0x1_0000_0000_0000_0000) as u64,
            ..self
        }
    }

    /// The counters after one more transmitted packet of `len` bytes.
    pub open spec fn count_tx(self, len: usize) -> DeviceStats {
        DeviceStats {
            tx_pkts: ((self.tx_pkts + 1) % 0x1_0000_0000_0000_0000) as u64,
            tx_bytes: ((self.tx_bytes + len) % 0x1_0000_0000_0000_0000) as u64,
            ..self
        }
    }

    /// Counters that have counted nothing.
    pub fn zero() -> (r: DeviceStats)
        ensures
            r == zero_stats(),
    {
        DeviceStats { rx_pkts: 0, tx_pkts: 0, rx_bytes: 0, tx_bytes: 0 }
    }

    /// Counts one received packet of `len` bytes.
    pub fn add_rx(&mut self, len: usize)
        ensures
            *final(self) == old(self).count_rx(len),
    {
        self.rx_pkts = self.rx_pkts.wrapping_add(1);
        self.rx_bytes = self.rx_bytes.wrapping_add(len as u64);
    }

    /// Counts one transmitted packet of `len` bytes.
    pub fn add_tx(&mut self, len: usize)
        ensures
            *final(self) == old(self).count_tx(len),
    {
        self.tx_pkts = self.tx_pkts.wrapping_add(1);
        self.tx_bytes = self.tx_bytes.wrapping_add(len as u64);
    }
}

} // verus!
