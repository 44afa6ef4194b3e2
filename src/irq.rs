//! Interrupt management: a fixed-capacity table from IRQ number to handler,
//! dispatch, and registration.
use vstd::prelude::*;

verus! {

/// The number of IRQ numbers the platform has.
pub const MAX_IRQ_COUNT: usize = 256;

/// What an IRQ number's slot holds.
pub enum IrqSlot<H> {
    /// Nothing: the number is unused.
    Free,
    /// Reserved for a handler that is not installed yet.
    Reserved,
    /// An installed handler.
    Installed(H),
}

/// The IRQ handler table. It also records which IRQ lines were enabled at
/// the platform interrupt controller through it, for the platform layer to
/// apply.
pub struct IrqTable<H: Fn()> {
    slots: Vec<IrqSlot<H>>,
    enabled: Vec<bool>,
    unhandled: u64,
}

impl<H: Fn()> IrqTable<H> {
    /// The slots, indexed by IRQ number.
    pub closed spec fn slots(&self) -> Seq<IrqSlot<H>> {
        self.slots@
    }

    /// Which IRQ lines are enabled at the controller, indexed by IRQ number.
    pub closed spec fn enabled(&self) -> Seq<bool> {
        self.enabled@
    }

    /// How many dispatches found no handler.
    pub closed spec fn unhandled(&self) -> u64 {
        self.unhandled
    }

    /// One slot and one enable flag per IRQ number, and every installed
    /// handler can be called.
    pub open spec fn wf(&self) -> bool {
        &&& self.slots().len() == MAX_IRQ_COUNT
        &&& self.enabled().len() == MAX_IRQ_COUNT
        &&& forall|i: int|
            0 <= i < MAX_IRQ_COUNT ==> (#[trigger] self.slots()[i] matches IrqSlot::Installed(h)
                ==> h.requires(()))
    }

    /// A table with every slot free and no line enabled.
    pub fn new() -> (r: Self)
        ensures
            r.wf(),
            forall|i: int| 0 <= i < MAX_IRQ_COUNT ==> #[trigger] r.slots()[i] is Free,
            r.enabled() == Seq::new(MAX_IRQ_COUNT as nat, |_i: int| false),
            r.unhandled() == 0,
    {
        let mut slots: Vec<IrqSlot<H>> = Vec::new();
        let mut enabled: Vec<bool> = Vec::new();
        let mut i: usize = 0;
        while i < MAX_IRQ_COUNT
            invariant
                i <= MAX_IRQ_COUNT,
                slots@.len() == i,
                enabled@.len() == i,
                forall|j: int| 0 <= j < i ==> #[trigger] slots@[j] is Free,
                forall|j: int| 0 <= j < i ==> #[trigger] enabled@[j] == false,
            decreases MAX_IRQ_COUNT - i,
        {
            slots.push(IrqSlot::Free);
            enabled.push(false);
            i = i + 1;
        }
        assert(enabled@ =~= Seq::new(MAX_IRQ_COUNT as nat, |_i: int| false));
        IrqTable { slots, enabled, unhandled: 0 }
    }

    /// Reserves the lowest free IRQ number without installing a handler, and
    /// returns it; `None` when no number is free.
    pub fn allocate_irq_num(&mut self) -> (r: Option<usize>)
        requires
            old(self).wf(),
        ensures
            final(self).wf(),
            final(self).enabled() == old(self).enabled(),
            final(self).unhandled() == old(self).unhandled(),
            r matches Some(n) ==> n < MAX_IRQ_COUNT && old(self).slots()[n as int] is Free
                && (forall|j: int| 0 <= j < n ==> !(#[trigger] old(self).slots()[j] is Free))
                && final(self).slots() == old(self).slots().update(n as int, IrqSlot::Reserved),
            r is None ==> (forall|j: int| 0 <= j < MAX_IRQ_COUNT ==> !(#[trigger] old(self).slots()[j] is Free))
                && final(self).slots() == old(self).slots(),
    {
        let mut i: usize = 0;
        while i < MAX_IRQ_COUNT
            invariant
                i <= MAX_IRQ_COUNT,
                old(self).wf(),
                self.slots@ == old(self).slots@,
                self.enabled@ == old(self).enabled@,
                self.unhandled == old(self).unhandled,
                forall|j: int| 0 <= j < i ==> !(#[trigger] self.slots@[j] is Free),
            decreases MAX_IRQ_COUNT - i,
        {
            if matches!(self.slots[i], IrqSlot::Free) {
                self.slots.set(i, IrqSlot::Reserved);
                return Some(i);
            }
            i = i + 1;
        }
        None
    }

    /// Installs `handler` for `irq`, replacing whatever the slot held;
    /// `false`, with nothing changed, when `irq` is out of range. The line
    /// is not enabled.
    pub fn register_handler(&mut self, irq: usize, handler: H) -> (r: bool)
        requires
            old(self).wf(),
            handler.requires(()),
        ensures
            final(self).wf(),
            r == (irq < MAX_IRQ_COUNT),
            r ==> final(self).slots() == old(self).slots().update(irq as int, IrqSlot::Installed(handler)),
            !r ==> final(self).slots() == old(self).slots(),
            final(self).enabled() == old(self).enabled(),
            final(self).unhandled() == old(self).unhandled(),
    {
        if irq < MAX_IRQ_COUNT {
            self.slots.set(irq, IrqSlot::Installed(handler));
            true
        } else {
            false
        }
    }

    /// Calls the handler installed for `irq` and returns `true`; when there
    /// is none, counts the IRQ as unhandled (the count wraps around) and
    /// returns `false`.
    pub fn handle(&mut self, irq: usize) -> (r: bool)
        requires
            old(self).wf(),
        ensures
            final(self).wf(),
            final(self).slots() == old(self).slots(),
            final(self).enabled() == old(self).enabled(),
            r == (irq < MAX_IRQ_COUNT && old(self).slots()[irq as int] is Installed),
            r ==> (old(self).slots()[irq as int] matches IrqSlot::Installed(h) && h.ensures((), ())),
            r ==> final(self).unhandled() == old(self).unhandled(),
            !r ==> final(self).unhandled() == (old(self).unhandled() + 1) % 0x1_0000_0000_0000_0000,
    {
        if irq < MAX_IRQ_COUNT {
            if let IrqSlot::Installed(h) = &self.slots[irq] {
                h();
                return true;
            }
        }
        self.unhandled = self.unhandled.wrapping_add(1);
        false
    }

    /// Whether `irq` was enabled at the controller through this table.
    pub fn is_enabled(&self, irq: usize) -> (r: bool)
        requires
            self.wf(),
        ensures
            r == (irq < MAX_IRQ_COUNT && self.enabled()[irq as int]),
    {
        irq < MAX_IRQ_COUNT && self.enabled[irq]
    }

    /// Whether a handler is installed for `irq`.
    pub fn is_installed(&self, irq: usize) -> (r: bool)
        requires
            self.wf(),
        ensures
            r == (irq < MAX_IRQ_COUNT && self.slots()[irq as int] is Installed),
    {
        irq < MAX_IRQ_COUNT && matches!(self.slots[irq], IrqSlot::Installed(_))
    }

    /// Whether `irq` is reserved without a handler.
    pub fn is_reserved(&self, irq: usize) -> (r: bool)
        requires
            self.wf(),
        ensures
            r == (irq < MAX_IRQ_COUNT && self.slots()[irq as int] is Reserved),
    {
        irq < MAX_IRQ_COUNT && matches!(self.slots[irq], IrqSlot::Reserved)
    }

    /// How many dispatches found no handler.
    pub fn unhandled_count(&self) -> (r: u64)
        ensures
            r == self.unhandled(),
    {
        self.unhandled
    }

    /// Marks `irq` enabled at the controller.
    fn set_enable(&mut self, irq: usize)
        requires
            old(self).wf(),
            irq < MAX_IRQ_COUNT,
        ensures
            final(self).wf(),
            final(self).slots() == old(self).slots(),
            final(self).enabled() == old(self).enabled().update(irq as int, true),
            final(self).unhandled() == old(self).unhandled(),
    {
        self.enabled.set(irq, true);
    }
}

/// Dispatches `irq` to its handler. An IRQ without a handler does not fail:
/// it is counted once as unhandled and `false` is returned.
pub fn dispatch_irq_common<H: Fn()>(table: &mut IrqTable<H>, irq: usize) -> (r: bool)
    requires
        old(table).wf(),
    ensures
        final(table).wf(),
        final(table).slots() == old(table).slots(),
        final(table).enabled() == old(table).enabled(),
        r == (irq < MAX_IRQ_COUNT && old(table).slots()[irq as int] is Installed),
        r ==> (old(table).slots()[irq as int] matches IrqSlot::Installed(h) && h.ensures((), ())),
        r ==> final(table).unhandled() == old(table).unhandled(),
        !r ==> final(table).unhandled() == (old(table).unhandled() + 1) % 0x1_0000_0000_0000_0000,
{
    table.handle(irq)
}

/// Installs `handler` for `irq` and enables the line at the controller.
/// Out of range, it returns `false` and changes nothing, the enable state
/// included.
pub fn register_handler_common<H: Fn()>(table: &mut IrqTable<H>, irq: usize, handler: H) -> (r: bool)
    requires
        old(table).wf(),
        handler.requires(()),
    ensures
        final(table).wf(),
        r == (irq < MAX_IRQ_COUNT),
        final(table).unhandled() == old(table).unhandled(),
        r ==> final(table).slots() == old(table).slots().update(irq as int, IrqSlot::Installed(handler))
            && final(table).enabled() == old(table).enabled().update(irq as int, true),
        !r ==> final(table).slots() == old(table).slots() && final(table).enabled() == old(
            table,
        ).enabled(),
{
    if irq < MAX_IRQ_COUNT && table.register_handler(irq, handler) {
        table.set_enable(irq);
        return true;
    }
    false
}

/// Reserves the lowest unused IRQ number, installs `handler` for it and
/// enables it; returns the number, or `None` when every number is in use.
pub fn alloc_and_register_handler<H: Fn()>(table: &mut IrqTable<H>, handler: H) -> (r: Option<u8>)
    requires
        old(table).wf(),
        handler.requires(()),
    ensures
        final(table).wf(),
        final(table).unhandled() == old(table).unhandled(),
        r matches Some(n) ==> old(table).slots()[n as int] is Free
            && (forall|j: int| 0 <= j < n ==> !(#[trigger] old(table).slots()[j] is Free))
            && final(table).slots() == old(table).slots().update(n as int, IrqSlot::Installed(handler))
            && final(table).enabled() == old(table).enabled().update(n as int, true),
        r is None ==> (forall|j: int| 0 <= j < MAX_IRQ_COUNT ==> !(#[trigger] old(table).slots()[j] is Free))
            && final(table).slots() == old(table).slots() && final(table).enabled() == old(
            table,
        ).enabled(),
{
    if let Some(irq) = table.allocate_irq_num() {
        if register_handler_common(table, irq, handler) {
            proof {
                assert(old(table).slots().update(irq as int, IrqSlot::<H>::Reserved).update(
                    irq as int,
                    IrqSlot::Installed(handler),
                ) =~= old(table).slots().update(irq as int, IrqSlot::Installed(handler)));
            }
            return Some(irq as u8);
        }
        return None;
    }
    None
}

} // verus!
