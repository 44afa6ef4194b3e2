//! MSI-X vector-table programming. Each entry is a 16-byte record in device
//! memory: lower and upper message address, message data, vector control.
//! Programming an entry is computed here as an ordered list of register
//! writes, which the platform layer performs with volatile stores in that
//! order.
use vstd::prelude::*;

verus! {

/// The fixed address region reserved for interrupt messages, in the lower
/// address field.
pub const MSIX_INTERRUPT_REGION: u32 = 0xFEE0_0000;

/// Bit position of the destination CPU id in the lower address field.
pub const MSIX_DEST_ID_SHIFT: u32 = 12;

/// The destination-id bits of the lower address field.
pub const MSIX_DEST_ID_BITS: u32 = 0x000F_F000;

/// The bits of the lower address field that hold the interrupt region.
pub const MSIX_REGION_BITS: u32 = 0xFFF0_0000;

/// Vector-control value that unmasks the interrupt.
pub const MSIX_UNMASK_INT: u32 = 0;

/// Size in bytes of one vector-table entry.
pub const MSIX_ENTRY_SIZE: usize = 16;

/// A field of a vector-table entry.
#[derive(Debug, Clone, Copy, PartialEq, Eq, Structural)]
pub enum MsixField {
    /// Lower message address; holds the destination CPU.
    LowerAddr,
    /// Upper message address.
    UpperAddr,
    /// Message data; holds the interrupt vector number.
    Data,
    /// Vector control; holds the mask bit.
    VectorControl,
}

impl MsixField {
    /// Byte offset of the field in its entry.
    pub open spec fn spec_offset(self) -> usize {
        match self {
            MsixField::LowerAddr => 0,
            MsixField::UpperAddr => 4,
            MsixField::Data => 8,
            MsixField::VectorControl => 12,
        }
    }

    /// Byte offset of the field in its entry.
    pub fn offset(self) -> (r: usize)
        ensures
            r == self.spec_offset(),
    {
        match self {
            MsixField::LowerAddr => 0,
            MsixField::UpperAddr => 4,
            MsixField::Data => 8,
            MsixField::VectorControl => 12,
        }
    }
}

/// One 32-bit register write.
#[derive(Debug, Clone, Copy, PartialEq, Eq, Structural)]
pub struct MsixWrite {
    /// The field written.
    pub field: MsixField,
    /// The value written.
    pub value: u32,
}

/// The lower address field that routes the interrupt to `cpu_id`: the
/// region bits set to the interrupt region, the destination bits set to the
/// CPU id, every other bit kept.
pub open spec fn routed_lower_addr(lower_addr: u32, cpu_id: usize) -> u32 {
    (lower_addr & !(MSIX_REGION_BITS | MSIX_DEST_ID_BITS)) | MSIX_INTERRUPT_REGION | ((cpu_id as u32) << MSIX_DEST_ID_SHIFT)
}

/// The writes that program an entry, in order: unmask, route to the CPU,
/// then the vector number.
pub open spec fn init_writes(lower_addr: u32, cpu_id: usize, int_num: u8) -> Seq<MsixWrite> {
    seq![
        MsixWrite { field: MsixField::VectorControl, value: MSIX_UNMASK_INT },
        MsixWrite { field: MsixField::LowerAddr, value: routed_lower_addr(lower_addr, cpu_id) },
        MsixWrite { field: MsixField::Data, value: int_num as u32 },
    ]
}

/// The contents of an entry's four registers.
#[derive(Debug, Clone, Copy, PartialEq, Eq, Structural)]
pub struct MsixEntryRegs {
    /// Lower message address.
    pub lower_addr: u32,
    /// Upper message address.
    pub upper_addr: u32,
    /// Message data.
    pub data: u32,
    /// Vector control.
    pub vector_control: u32,
}

/// The registers after one write.
pub open spec fn apply_write(regs: MsixEntryRegs, w: MsixWrite) -> MsixEntryRegs {
    match w.field {
        MsixField::LowerAddr => MsixEntryRegs { lower_addr: w.value, ..regs },
        MsixField::UpperAddr => MsixEntryRegs { upper_addr: w.value, ..regs },
        MsixField::Data => MsixEntryRegs { data: w.value, ..regs },
        MsixField::VectorControl => MsixEntryRegs { vector_control: w.value, ..regs },
    }
}

/// The registers after a sequence of writes, first to last.
pub open spec fn apply_writes(regs: MsixEntryRegs, ws: Seq<MsixWrite>) -> MsixEntryRegs
    decreases ws.len(),
{
    if ws.len() == 0 {
        regs
    } else {
        apply_writes(apply_write(regs, ws[0]), ws.drop_first())
    }
}

impl MsixEntryRegs {
    /// Performs one write.
    pub fn apply(&mut self, w: MsixWrite)
        ensures
            *final(self) == apply_write(*old(self), w),
    {
        match w.field {
            MsixField::LowerAddr => self.lower_addr = w.value,
            MsixField::UpperAddr => self.upper_addr = w.value,
            MsixField::Data => self.data = w.value,
            MsixField::VectorControl => self.vector_control = w.value,
        }
    }
}

/// Programming an entry for a CPU id that fits the 8-bit destination field
/// leaves the vector number in the data field, the interrupt unmasked, the
/// CPU id in the destination bits of the lower address and the interrupt
/// region in its top bits, whatever they held, and its low twelve bits and
/// the upper address as they were.
pub proof fn lemma_init_routes_vector(regs: MsixEntryRegs, cpu_id: usize, int_num: u8)
    requires
        cpu_id < 256,
    ensures
        ({
            let after = apply_writes(regs, init_writes(regs.lower_addr, cpu_id, int_num));
            &&& after.data == int_num as u32
            &&& after.vector_control == MSIX_UNMASK_INT
            &&& after.lower_addr & 0x000F_F000 == (cpu_id as u32) << MSIX_DEST_ID_SHIFT
            &&& after.lower_addr & 0xFFF0_0000 == MSIX_INTERRUPT_REGION
            &&& after.lower_addr & 0xFFF == regs.lower_addr & 0xFFF
            &&& after.upper_addr == regs.upper_addr
        }),
{
    let ws = init_writes(regs.lower_addr, cpu_id, int_num);
    let w1 = ws.drop_first();
    let w2 = w1.drop_first();
    let w3 = w2.drop_first();
    let r1 = apply_write(regs, ws[0]);
    let r2 = apply_write(r1, w1[0]);
    let r3 = apply_write(r2, w2[0]);
    assert(w3.len() == 0);
    assert(apply_writes(r3, w3) == r3);
    assert(apply_writes(r2, w2) == r3);
    assert(apply_writes(r1, w1) == r3);
    let after = apply_writes(regs, ws);
    assert(after == r3);
    let l: u32 = regs.lower_addr;
    let c: u32 = cpu_id as u32;
    assert(c < 256);
    let v: u32 = routed_lower_addr(l, cpu_id);
    assert(v == (l & !(0xFFF0_0000u32 | 0x000F_F000u32)) | 0xFEE0_0000u32 | (c << 12u32));
    assert(after.lower_addr == v);
    assert(((l & !(0xFFF0_0000u32 | 0x000F_F000u32)) | 0xFEE0_0000u32 | (c << 12u32)) & 0x000F_F000 == c
        << 12u32) by (bit_vector)
        requires
            c < 256,
    ;
    assert(((l & !(0xFFF0_0000u32 | 0x000F_F000u32)) | 0xFEE0_0000u32 | (c << 12u32)) & 0xFFF0_0000
        == 0xFEE0_0000u32) by (bit_vector)
        requires
            c < 256,
    ;
    assert(((l & !(0xFFF0_0000u32 | 0x000F_F000u32)) | 0xFEE0_0000u32 | (c << 12u32)) & 0xFFF == l
        & 0xFFF) by (bit_vector)
        requires
            c < 256,
    ;
}

/// One MSI-X interrupt entry, by the address of its registers.
#[derive(Debug, Clone, Copy, PartialEq, Eq, Structural)]
pub struct MsixVectorEntry {
    addr: usize,
}

impl MsixVectorEntry {
    /// Address of the entry's registers.
    pub closed spec fn spec_addr(&self) -> usize {
        self.addr
    }

    /// Address of the entry's registers.
    pub fn addr(&self) -> (r: usize)
        ensures
            r == self.spec_addr(),
    {
        self.addr
    }

    /// Address of one of the entry's fields.
    pub fn field_addr(&self, field: MsixField) -> (r: usize)
        requires
            self.spec_addr() + MSIX_ENTRY_SIZE <= usize::MAX + 1,
        ensures
            r == self.spec_addr() + field.spec_offset(),
    {
        self.addr + field.offset()
    }

    /// Sets the interrupt's destination CPU and vector number and unmasks
    /// it. `lower_addr` is the lower address field's current value. The
    /// result is the writes to make, in order; the unmask comes first, so
    /// the entry can fire before its vector number is written. The CPU id
    /// must fit the 8-bit destination field.
    pub fn init(&self, cpu_id: usize, int_num: u8, lower_addr: u32) -> (r: Vec<MsixWrite>)
        requires
            cpu_id < 256,
        ensures
            r@ == init_writes(lower_addr, cpu_id, int_num),
    {
        let dest_id: u32 = (cpu_id as u32) << MSIX_DEST_ID_SHIFT;
        let address: u32 = lower_addr & !(MSIX_REGION_BITS | MSIX_DEST_ID_BITS);
        let mut writes: Vec<MsixWrite> = Vec::new();
        writes.push(MsixWrite { field: MsixField::VectorControl, value: MSIX_UNMASK_INT });
        writes.push(MsixWrite { field: MsixField::LowerAddr, value: address | MSIX_INTERRUPT_REGION | dest_id });
        writes.push(MsixWrite { field: MsixField::Data, value: int_num as u32 });
        assert(writes@ =~= init_writes(lower_addr, cpu_id, int_num));
        writes
    }
}

/// A memory-mapped array of MSI-X entries.
pub struct MsixVectorTable {
    entries: Vec<MsixVectorEntry>,
}

impl MsixVectorTable {
    /// The entries, in table order.
    pub closed spec fn view(&self) -> Seq<MsixVectorEntry> {
        self.entries@
    }

    /// The table of `max_vectors` entries whose first entry is at `addr`.
    pub fn new(addr: usize, max_vectors: usize) -> (r: Self)
        requires
            max_vectors > 0 ==> addr > 0,
            addr + MSIX_ENTRY_SIZE * max_vectors <= usize::MAX + 1,
        ensures
            r@.len() == max_vectors,
            forall|i: int| 0 <= i < max_vectors ==> #[trigger] r@[i].spec_addr() == addr + i * MSIX_ENTRY_SIZE,
    {
        let mut entries: Vec<MsixVectorEntry> = Vec::with_capacity(max_vectors);
        let mut i: usize = 0;
        while i < max_vectors
            invariant
                i <= max_vectors,
                max_vectors > 0 ==> addr > 0,
                addr + MSIX_ENTRY_SIZE * max_vectors <= usize::MAX + 1,
                entries@.len() == i,
                forall|j: int| 0 <= j < i ==> #[trigger] entries@[j].spec_addr() == addr + j * MSIX_ENTRY_SIZE,
            decreases max_vectors - i,
        {
            proof {
                assert(MSIX_ENTRY_SIZE * i + MSIX_ENTRY_SIZE <= MSIX_ENTRY_SIZE * max_vectors) by (nonlinear_arith)
                    requires
                        i < max_vectors,
                ;
            }
            let entry_addr: usize = addr + i * MSIX_ENTRY_SIZE;
            entries.push(MsixVectorEntry { addr: entry_addr });
            i = i + 1;
        }
        MsixVectorTable { entries }
    }

    /// The number of entries.
    pub fn len(&self) -> (r: usize)
        ensures
            r == self@.len(),
    {
        self.entries.len()
    }

    /// The entry of vector `i`.
    pub fn entry(&self, i: usize) -> (r: &MsixVectorEntry)
        requires
            i < self@.len(),
        ensures
            *r == self@[i as int],
    {
        &self.entries[i]
    }
}

} // verus!
