use driver_net::msix::{
    MsixEntryRegs, MsixField, MsixVectorTable, MsixWrite, MSIX_ENTRY_SIZE, MSIX_INTERRUPT_REGION,
};

fn program(regs: &mut MsixEntryRegs, writes: &[MsixWrite]) {
    for w in writes {
        regs.apply(*w);
    }
}

#[test]
fn table_entries_are_sixteen_bytes_apart() {
    let t = MsixVectorTable::new(0x1000, 64);
    assert_eq!(t.len(), 64);
    assert_eq!(t.entry(0).addr(), 0x1000);
    assert_eq!(t.entry(1).addr(), 0x1010);
    assert_eq!(t.entry(63).addr(), 0x1000 + 63 * 16);
    assert_eq!(MSIX_ENTRY_SIZE, 16);
}

#[test]
fn empty_table() {
    let t = MsixVectorTable::new(0, 0);
    assert_eq!(t.len(), 0);
}

#[test]
fn field_addresses() {
    let t = MsixVectorTable::new(0x2000, 2);
    let e = t.entry(1);
    assert_eq!(e.field_addr(MsixField::LowerAddr), 0x2010);
    assert_eq!(e.field_addr(MsixField::UpperAddr), 0x2014);
    assert_eq!(e.field_addr(MsixField::Data), 0x2018);
    assert_eq!(e.field_addr(MsixField::VectorControl), 0x201c);
}

#[test]
fn init_unmasks_first_then_routes_then_sets_vector() {
    let t = MsixVectorTable::new(0x1000, 1);
    let w = t.entry(0).init(3, 0x41, 0x0000_0009);
    assert_eq!(w.len(), 3);
    assert_eq!(w[0], MsixWrite { field: MsixField::VectorControl, value: 0 });
    assert_eq!(w[1], MsixWrite { field: MsixField::LowerAddr, value: 0xFEE0_3009 });
    assert_eq!(w[2], MsixWrite { field: MsixField::Data, value: 0x41 });
}

#[test]
fn init_then_read_data_yields_vector() {
    let t = MsixVectorTable::new(0x1000, 4);
    let mut regs = MsixEntryRegs { lower_addr: 0xFEE3_4F07, upper_addr: 0x12, data: 0x99, vector_control: 1 };
    let w = t.entry(2).init(5, 200, regs.lower_addr);
    program(&mut regs, &w);
    assert_eq!(regs.data, 200);
    assert_eq!(regs.vector_control, 0);
    assert_eq!(regs.lower_addr & 0x000F_F000, 5 << 12);
    assert_eq!(regs.lower_addr & 0xFFF0_0000, MSIX_INTERRUPT_REGION);
    assert_eq!(regs.lower_addr & 0xFFF, 0xF07);
    assert_eq!(regs.lower_addr, 0xFEE0_5F07);
    assert_eq!(regs.upper_addr, 0x12);
}

#[test]
fn init_clears_old_destination() {
    let t = MsixVectorTable::new(0x1000, 1);
    let w = t.entry(0).init(0, 1, 0xFEE0_F000);
    assert_eq!(w[1].value, 0xFEE0_0000);
}

#[test]
fn init_keeps_the_low_twelve_bits() {
    let t = MsixVectorTable::new(0x1000, 1);
    let w = t.entry(0).init(0, 1, 0x0000_0FF0);
    assert_eq!(w[1].value, 0xFEE0_0FF0);
    let w = t.entry(0).init(255, 1, 0x0000_0FF0);
    assert_eq!(w[1].value, 0xFEEF_FFF0);
}

#[test]
fn init_sets_the_region_whatever_the_top_bits_held() {
    let t = MsixVectorTable::new(0x1000, 1);
    assert_eq!(t.entry(0).init(0, 1, 0x0010_0000)[1].value, 0xFEE0_0000);
    assert_eq!(t.entry(0).init(1, 1, 0xFFFF_FFFF)[1].value, 0xFEE0_1FFF);
}
