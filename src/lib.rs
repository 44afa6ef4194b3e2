//! Network-device integration layer: a backend-agnostic NIC interface, the
//! adapter for the Intel 82599 ring NIC, the hardware-abstraction bridge the
//! ring driver calls back into, the IRQ handler table, MSI-X vector-table
//! programming and PCI probing.

pub mod error;
pub mod staging;
pub mod ixgbe_types;
pub mod buffer;
pub mod stats;
pub mod ixgbe;
pub mod irq;
pub mod msix;
pub mod hal;
pub mod probe;
pub mod driver;
