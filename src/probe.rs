//! PCI probing of the ring NIC: matching the device identity, checking the
//! register window (BAR0), and routing its first MSI-X vector to an
//! interrupt handler.
//!
//! The bus accesses are the caller's: it reads the identity and BAR0, asks
//! `pci_probe_ixgbe` whether and where to set the device up, maps and
//! enables the MSI-X table, sets up the ring device, and then lets
//! `route_msix` register the interrupt and say which vector-table writes to
//! make.
use crate::irq::{alloc_and_register_handler, IrqSlot, IrqTable, MAX_IRQ_COUNT};
use crate::msix::{init_writes, MsixVectorTable, MsixWrite};
use vstd::prelude::*;

verus! {

/// Vendor id of Intel.
pub const INTEL_VEND: u16 = 0x8086;

/// Device id of the 82599 10G NIC.
pub const INTEL_82599: u16 = 0x10FB;

/// The number of MSI-X vectors of the 82599, from its data sheet.
pub const IXGBE_MAX_MSIX_VECTORS: usize = 64;

/// The number of receive queues and of transmit queues the device is set
/// up with.
pub const IXGBE_NUM_QUEUES: u16 = 1;

/// The number of descriptors of each queue.
pub const IXGBE_QUEUE_SIZE: usize = 1024;

/// The CPU the device's interrupt is routed to.
pub const IXGBE_IRQ_CPU: usize = 0;

/// The location of a PCI function: bus, device, function.
#[derive(Debug, Clone, Copy, PartialEq, Eq, Structural)]
pub struct DeviceFunction {
    /// Bus number.
    pub bus: u8,
    /// Device number on the bus.
    pub device: u8,
    /// Function number of the device.
    pub function: u8,
}

/// The identity a PCI function reports.
#[derive(Debug, Clone, Copy, PartialEq, Eq, Structural)]
pub struct DeviceFunctionInfo {
    /// Vendor id.
    pub vendor_id: u16,
    /// Device id.
    pub device_id: u16,
    /// Revision.
    pub revision: u8,
    /// Class code.
    pub class: u8,
    /// Subclass code.
    pub subclass: u8,
    /// Programming interface.
    pub prog_if: u8,
}

/// The address width of a memory BAR.
#[derive(Debug, Clone, Copy, PartialEq, Eq, Structural)]
pub enum MemoryBarType {
    /// A 32-bit address.
    Width32,
    /// An address below 1 MiB.
    Below1MiB,
    /// A 64-bit address.
    Width64,
}

/// What a base address register describes.
#[derive(Debug, Clone, Copy, PartialEq, Eq, Structural)]
pub enum BarInfo {
    /// A memory-mapped window.
    Memory {
        /// The address width.
        address_type: MemoryBarType,
        /// Whether reads have no side effects.
        prefetchable: bool,
        /// Physical base address.
        address: u64,
        /// Size in bytes.
        size: u64,
    },
    /// An I/O-space window.
    IO {
        /// Base port.
        address: u32,
        /// Size in ports.
        size: u32,
    },
}

/// Where and how to set up a matched device.
#[derive(Debug, Clone, Copy, PartialEq, Eq, Structural)]
pub struct IxgbeWindow {
    /// Physical base of the register window.
    pub phys: usize,
    /// Size of the register window.
    pub size: usize,
    /// Number of receive queues to set up.
    pub num_rx_queues: u16,
    /// Number of transmit queues to set up.
    pub num_tx_queues: u16,
    /// Number of MSI-X vectors to map.
    pub max_msix_vectors: usize,
}

/// Whether the identity is the ring NIC's.
pub open spec fn is_ixgbe(info: DeviceFunctionInfo) -> bool {
    info.vendor_id == INTEL_VEND && info.device_id == INTEL_82599
}

/// Whether the identity is the ring NIC's.
pub fn matches_ixgbe(info: &DeviceFunctionInfo) -> (r: bool)
    ensures
        r == is_ixgbe(*info),
{
    info.vendor_id == INTEL_VEND && info.device_id == INTEL_82599
}

/// Decides whether the function is the ring NIC and where its registers
/// are: `None` for another device, and for a BAR0 in I/O space, which is
/// not supported.
pub fn pci_probe_ixgbe(info: &DeviceFunctionInfo, bar0: &BarInfo) -> (r: Option<IxgbeWindow>)
    ensures
        !is_ixgbe(*info) ==> r is None,
        bar0 is IO ==> r is None,
        is_ixgbe(*info) ==> (bar0 matches BarInfo::Memory { address, size, .. } ==> r == Some(
            IxgbeWindow {
                phys: address as usize,
                size: size as usize,
                num_rx_queues: IXGBE_NUM_QUEUES,
                num_tx_queues: IXGBE_NUM_QUEUES,
                max_msix_vectors: IXGBE_MAX_MSIX_VECTORS,
            },
        )),
{
    if matches_ixgbe(info) {
        match bar0 {
            BarInfo::Memory { address, size, .. } => {
                return Some(
                    IxgbeWindow {
                        phys: *address as usize,
                        size: *size as usize,
                        num_rx_queues: IXGBE_NUM_QUEUES,
                        num_tx_queues: IXGBE_NUM_QUEUES,
                        max_msix_vectors: IXGBE_MAX_MSIX_VECTORS,
                    },
                );
            },
            BarInfo::IO { .. } => {
                return None;
            },
        }
    }
    None
}

/// How the device's interrupt was routed.
pub struct MsixRouting {
    /// The device's vector table.
    pub table: MsixVectorTable,
    /// The IRQ number the handler was registered for.
    pub irq: u8,
    /// The writes that program vector 0, in order.
    pub writes: Vec<MsixWrite>,
}

/// Registers `handler` for a newly allocated IRQ number and plans the
/// programming of vector 0 of `table` to deliver it to CPU 0; `lower_addr`
/// is that vector's current lower address field. `None`, with the IRQ
/// table unchanged, when no IRQ number is free.
pub fn route_msix<H: Fn()>(
    table: MsixVectorTable,
    irqs: &mut IrqTable<H>,
    handler: H,
    lower_addr: u32,
) -> (r: Option<MsixRouting>)
    requires
        table@.len() > 0,
        old(irqs).wf(),
        handler.requires(()),
    ensures
        final(irqs).wf(),
        r matches Some(ro) ==> {
            &&& ro.table@ == table@
            &&& ro.irq < MAX_IRQ_COUNT
            &&& old(irqs).slots()[ro.irq as int] is Free
            &&& (forall|j: int| 0 <= j < ro.irq ==> !(#[trigger] old(irqs).slots()[j] is Free))
            &&& final(irqs).slots() == old(irqs).slots().update(ro.irq as int, IrqSlot::Installed(handler))
            &&& final(irqs).enabled() == old(irqs).enabled().update(ro.irq as int, true)
            &&& ro.writes@ == init_writes(lower_addr, IXGBE_IRQ_CPU, ro.irq)
        },
        r is None ==> (forall|j: int| 0 <= j < MAX_IRQ_COUNT ==> !(#[trigger] old(irqs).slots()[j] is Free))
            && final(irqs).slots() == old(irqs).slots() && final(irqs).enabled() == old(irqs).enabled(),
{
    let irq: u8 = match alloc_and_register_handler(irqs, handler) {
        Some(n) => n,
        None => return None,
    };
    let writes = table.entry(0).init(IXGBE_IRQ_CPU, irq, lower_addr);
    Some(MsixRouting { table, irq, writes })
}

} // verus!
