use driver_net::irq::IrqTable;
use driver_net::msix::{MsixField, MsixVectorTable, MsixWrite};
use driver_net::probe::{
    matches_ixgbe, pci_probe_ixgbe, route_msix, BarInfo, DeviceFunction, DeviceFunctionInfo, IxgbeWindow, MemoryBarType,
    INTEL_82599, INTEL_VEND, IXGBE_MAX_MSIX_VECTORS, IXGBE_NUM_QUEUES,
};

fn info(vendor_id: u16, device_id: u16) -> DeviceFunctionInfo {
    DeviceFunctionInfo { vendor_id, device_id, revision: 1, class: 2, subclass: 0, prog_if: 0 }
}

fn memory_bar(address: u64, size: u64) -> BarInfo {
    BarInfo::Memory { address_type: MemoryBarType::Width64, prefetchable: false, address, size }
}

fn handler() {}

#[test]
fn identity_matches_the_ring_driver() {
    assert_eq!(INTEL_VEND, ixgbe_driver::INTEL_VEND);
    assert_eq!(INTEL_82599, ixgbe_driver::INTEL_82599);
}

#[test]
fn matching_device_with_memory_bar_is_set_up() {
    let w = pci_probe_ixgbe(&info(0x8086, 0x10FB), &memory_bar(0xfebc_0000, 0x8_0000));
    assert_eq!(
        w,
        Some(IxgbeWindow {
            phys: 0xfebc_0000,
            size: 0x8_0000,
            num_rx_queues: 1,
            num_tx_queues: 1,
            max_msix_vectors: 64,
        })
    );
    assert_eq!(IXGBE_NUM_QUEUES, 1);
    assert_eq!(IXGBE_MAX_MSIX_VECTORS, 64);
}

#[test]
fn io_bar_yields_no_device() {
    let w = pci_probe_ixgbe(&info(0x8086, 0x10FB), &BarInfo::IO { address: 0xc000, size: 0x20 });
    assert_eq!(w, None);
}

#[test]
fn other_devices_are_not_probed() {
    assert_eq!(pci_probe_ixgbe(&info(0x8086, 0x100E), &memory_bar(0x1000, 0x1000)), None);
    assert_eq!(pci_probe_ixgbe(&info(0x1AF4, 0x10FB), &memory_bar(0x1000, 0x1000)), None);
}

#[test]
fn device_function_is_a_plain_triple() {
    let bdf = DeviceFunction { bus: 0, device: 3, function: 0 };
    assert_eq!(bdf, DeviceFunction { bus: 0, device: 3, function: 0 });
}

#[test]
fn routing_registers_a_handler_and_programs_vector_zero() {
    let mut irqs: IrqTable<fn()> = IrqTable::new();
    assert!(irqs.register_handler(0, handler as fn()));
    let table = MsixVectorTable::new(0x4000, 64);
    let r = route_msix(table, &mut irqs, handler as fn(), 0).unwrap();
    assert_eq!(r.irq, 1);
    assert!(irqs.is_installed(1));
    assert!(irqs.is_enabled(1));
    assert_eq!(r.table.len(), 64);
    assert_eq!(r.table.entry(0).addr(), 0x4000);
    assert_eq!(r.writes[0], MsixWrite { field: MsixField::VectorControl, value: 0 });
    assert_eq!(r.writes[1], MsixWrite { field: MsixField::LowerAddr, value: 0xFEE0_0000 });
    assert_eq!(r.writes[2], MsixWrite { field: MsixField::Data, value: 1 });
}

#[test]
fn routing_without_free_irq_registers_nothing() {
    let mut irqs: IrqTable<fn()> = IrqTable::new();
    while irqs.allocate_irq_num().is_some() {}
    let table = MsixVectorTable::new(0x4000, 64);
    assert!(route_msix(table, &mut irqs, handler as fn(), 0).is_none());
    assert!(!irqs.is_enabled(0));
}

#[test]
fn identity_check() {
    assert!(matches_ixgbe(&info(0x8086, 0x10FB)));
    assert!(!matches_ixgbe(&info(0x8086, 0x10FC)));
}
