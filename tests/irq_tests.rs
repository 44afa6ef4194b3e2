use driver_net::irq::{
    alloc_and_register_handler, dispatch_irq_common, register_handler_common, IrqTable, MAX_IRQ_COUNT,
};
use std::cell::Cell;
use std::rc::Rc;

fn quiet_handler() {}

#[test]
fn registration_out_of_range_is_refused_and_enables_nothing() {
    let mut t: IrqTable<fn()> = IrqTable::new();
    assert!(!register_handler_common(&mut t, MAX_IRQ_COUNT, quiet_handler as fn()));
    assert!(!register_handler_common(&mut t, 1000, quiet_handler as fn()));
    for irq in 0..MAX_IRQ_COUNT {
        assert!(!t.is_enabled(irq));
        assert!(!t.is_installed(irq));
    }
    assert!(!t.is_enabled(MAX_IRQ_COUNT));
}

#[test]
fn registration_installs_and_enables() {
    let mut t: IrqTable<fn()> = IrqTable::new();
    assert!(register_handler_common(&mut t, 33, quiet_handler as fn()));
    assert!(t.is_installed(33));
    assert!(t.is_enabled(33));
    assert!(!t.is_enabled(32));
}

#[test]
fn direct_registration_does_not_enable() {
    let mut t: IrqTable<fn()> = IrqTable::new();
    assert!(t.register_handler(5, quiet_handler as fn()));
    assert!(t.is_installed(5));
    assert!(!t.is_enabled(5));
    assert!(!t.register_handler(MAX_IRQ_COUNT, quiet_handler as fn()));
}

#[test]
fn reregistration_overwrites() {
    let first = Rc::new(Cell::new(0u32));
    let second = Rc::new(Cell::new(0u32));
    let (f, s) = (first.clone(), second.clone());
    let mut t: IrqTable<Box<dyn Fn()>> = IrqTable::new();
    assert!(t.register_handler(7, Box::new(move || f.set(f.get() + 1))));
    assert!(t.register_handler(7, Box::new(move || s.set(s.get() + 1))));
    assert!(dispatch_irq_common(&mut t, 7));
    assert!(dispatch_irq_common(&mut t, 7));
    assert_eq!(first.get(), 0);
    assert_eq!(second.get(), 2);
    assert_eq!(t.unhandled_count(), 0);
}

#[test]
fn unhandled_dispatch_is_counted_once_each() {
    let mut t: IrqTable<fn()> = IrqTable::new();
    assert!(!dispatch_irq_common(&mut t, 3));
    assert_eq!(t.unhandled_count(), 1);
    assert!(!dispatch_irq_common(&mut t, 3));
    assert_eq!(t.unhandled_count(), 2);
    assert!(!dispatch_irq_common(&mut t, MAX_IRQ_COUNT + 5));
    assert_eq!(t.unhandled_count(), 3);
}

#[test]
fn reserved_slot_is_unhandled() {
    let mut t: IrqTable<fn()> = IrqTable::new();
    assert_eq!(t.allocate_irq_num(), Some(0));
    assert!(t.is_reserved(0));
    assert!(!dispatch_irq_common(&mut t, 0));
    assert_eq!(t.unhandled_count(), 1);
}

#[test]
fn allocation_takes_the_lowest_free_number() {
    let mut t: IrqTable<fn()> = IrqTable::new();
    assert!(t.register_handler(0, quiet_handler as fn()));
    assert!(t.register_handler(1, quiet_handler as fn()));
    assert_eq!(t.allocate_irq_num(), Some(2));
    assert_eq!(t.allocate_irq_num(), Some(3));
    assert_eq!(alloc_and_register_handler(&mut t, quiet_handler as fn()), Some(4));
    assert!(t.is_installed(4));
    assert!(t.is_enabled(4));
}

#[test]
fn allocation_fails_when_every_number_is_used() {
    let mut t: IrqTable<fn()> = IrqTable::new();
    for i in 0..MAX_IRQ_COUNT {
        assert_eq!(t.allocate_irq_num(), Some(i));
    }
    assert_eq!(t.allocate_irq_num(), None);
    assert_eq!(alloc_and_register_handler(&mut t, quiet_handler as fn()), None);
    assert!(!t.is_enabled(0));
}

#[test]
fn closures_can_be_handlers() {
    let mut t = IrqTable::new();
    assert!(register_handler_common(&mut t, 9, || {}));
    assert!(dispatch_irq_common(&mut t, 9));
}
