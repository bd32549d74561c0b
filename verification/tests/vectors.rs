use r_os::idt::{Handler, Slot, VectorTable, BREAKPOINT_VECTOR, DOUBLE_FAULT_VECTOR, PAGE_FAULT_VECTOR};
use r_os::interrupts::{
    build_idt, chained_pics, init_idt, Idt, InteruptsIndex, PIC_1_OFFSET, PIC_2_OFFSET,
    RESERVED_VECTORS,
};
use r_os::pic::{Acknowledgment, ChainedControllers};

#[test]
fn device_vectors_follow_the_primary_base() {
    assert_eq!(PIC_1_OFFSET, 32);
    assert_eq!(PIC_2_OFFSET, 40);
    assert_eq!(InteruptsIndex::Timer.as_u8(), 32);
    assert_eq!(InteruptsIndex::Keyboard.as_u8(), 33);
    assert_eq!(InteruptsIndex::Timer.as_usize(), 32usize);
    assert_eq!(InteruptsIndex::Keyboard.as_usize(), 33usize);
}

#[test]
fn device_vectors_are_distinct_and_not_reserved() {
    let devices = [InteruptsIndex::Timer, InteruptsIndex::Keyboard];
    for a in devices {
        assert!(a.as_u8() >= PIC_1_OFFSET);
        assert!(a.as_u8() >= RESERVED_VECTORS);
        for b in devices {
            assert_eq!(a == b, a.as_u8() == b.as_u8());
        }
    }
}

#[test]
fn handlers_belong_at_their_vectors() {
    assert_eq!(Handler::Breakpoint.vector(), 3);
    assert_eq!(Handler::DoubleFault.vector(), 8);
    assert_eq!(Handler::PageFault.vector(), 14);
    assert_eq!(Handler::Timer.vector(), 32);
    assert_eq!(Handler::Keyboard.vector(), 33);
    assert!(!Handler::Breakpoint.is_device());
    assert!(!Handler::DoubleFault.is_device());
    assert!(!Handler::PageFault.is_device());
    assert!(Handler::Timer.is_device());
    assert!(Handler::Keyboard.is_device());
}

#[test]
fn new_table_is_empty() {
    let table = VectorTable::new();
    for vector in 0..=255u8 {
        assert_eq!(table.entry(vector), Slot::Empty);
    }
}

#[test]
fn set_handler_binds_one_slot() {
    let mut table = VectorTable::new();
    table.set_handler(Handler::Timer);
    for vector in 0..=255u8 {
        if vector == 32 {
            assert_eq!(table.entry(vector), Slot::Bound { handler: Handler::Timer, stack: None });
        } else {
            assert_eq!(table.entry(vector), Slot::Empty);
        }
    }
    table.set_stack_index(Handler::Timer, 6);
    assert_eq!(table.entry(32), Slot::Bound { handler: Handler::Timer, stack: Some(6) });
    table.set_handler(Handler::Timer);
    assert_eq!(table.entry(32), Slot::Bound { handler: Handler::Timer, stack: None });
}

#[test]
fn kernel_table_binds_the_five_handlers() {
    let table = build_idt(2);
    for vector in 0..=255u8 {
        let expected = match vector {
            BREAKPOINT_VECTOR => Slot::Bound { handler: Handler::Breakpoint, stack: None },
            DOUBLE_FAULT_VECTOR => Slot::Bound { handler: Handler::DoubleFault, stack: Some(2) },
            PAGE_FAULT_VECTOR => Slot::Bound { handler: Handler::PageFault, stack: None },
            32 => Slot::Bound { handler: Handler::Timer, stack: None },
            33 => Slot::Bound { handler: Handler::Keyboard, stack: None },
            _ => Slot::Empty,
        };
        assert_eq!(table.entry(vector), expected);
    }
}

#[test]
fn reserved_vectors_hold_no_device_handler() {
    let table = build_idt(0);
    for vector in 0..RESERVED_VECTORS {
        match table.entry(vector) {
            Slot::Empty => {}
            Slot::Bound { handler, .. } => assert!(!handler.is_device()),
        }
    }
}

#[test]
fn only_the_double_fault_runs_on_an_alternate_stack() {
    let table = build_idt(0);
    for vector in 0..=255u8 {
        if let Slot::Bound { handler, stack } = table.entry(vector) {
            assert_eq!(stack.is_some(), handler == Handler::DoubleFault);
        }
    }
    assert_eq!(
        table.entry(DOUBLE_FAULT_VECTOR),
        Slot::Bound { handler: Handler::DoubleFault, stack: Some(0) }
    );
}

#[test]
fn init_idt_builds_once() {
    let mut idt = Idt::new();
    assert!(idt.table().is_none());
    let first = init_idt(&mut idt, 1);
    assert_eq!(first.entry(8), Slot::Bound { handler: Handler::DoubleFault, stack: Some(1) });
    let second = init_idt(&mut idt, 5);
    let kept = idt.table().unwrap();
    for vector in 0..=255u8 {
        assert_eq!(first.entry(vector), second.entry(vector));
        assert_eq!(first.entry(vector), kept.entry(vector));
        assert_eq!(first.entry(vector), build_idt(1).entry(vector));
    }
}

#[test]
fn controllers_refuse_bad_bases() {
    assert!(ChainedControllers::initialize(32, 40).is_some());
    assert!(ChainedControllers::initialize(40, 32).is_some());
    assert!(ChainedControllers::initialize(248, 32).is_some());
    assert!(ChainedControllers::initialize(32, 248).is_some());
    // inside the range reserved for the CPU
    assert!(ChainedControllers::initialize(8, 40).is_none());
    assert!(ChainedControllers::initialize(32, 31).is_none());
    assert!(ChainedControllers::initialize(0, 8).is_none());
    // overlapping
    assert!(ChainedControllers::initialize(32, 32).is_none());
    assert!(ChainedControllers::initialize(32, 39).is_none());
    assert!(ChainedControllers::initialize(39, 32).is_none());
    // past the last vector
    assert!(ChainedControllers::initialize(249, 32).is_none());
    assert!(ChainedControllers::initialize(32, 255).is_none());
}

#[test]
fn controllers_keep_their_bases() {
    let controllers = ChainedControllers::initialize(48, 112).unwrap();
    assert_eq!(controllers.primary_offset(), 48);
    assert_eq!(controllers.secondary_offset(), 112);
    let standard = chained_pics();
    assert_eq!(standard.primary_offset(), PIC_1_OFFSET);
    assert_eq!(standard.secondary_offset(), PIC_2_OFFSET);
}

#[test]
fn acknowledge_notifies_by_range() {
    let controllers = chained_pics();
    for vector in 0..=255u8 {
        let expected = match vector {
            32..=39 => Acknowledgment::Primary,
            40..=47 => Acknowledgment::SecondaryThenPrimary,
            _ => Acknowledgment::Nobody,
        };
        assert_eq!(controllers.acknowledge(vector), expected);
        assert_eq!(controllers.handles_interrupt(vector), (32..=47).contains(&vector));
    }
}

#[test]
fn acknowledge_at_the_top_of_the_vectors() {
    let controllers = ChainedControllers::initialize(240, 248).unwrap();
    assert_eq!(controllers.acknowledge(239), Acknowledgment::Nobody);
    assert_eq!(controllers.acknowledge(240), Acknowledgment::Primary);
    assert_eq!(controllers.acknowledge(247), Acknowledgment::Primary);
    assert_eq!(controllers.acknowledge(248), Acknowledgment::SecondaryThenPrimary);
    assert_eq!(controllers.acknowledge(255), Acknowledgment::SecondaryThenPrimary);
    assert!(controllers.handles_interrupt(255));
    assert!(!controllers.handles_interrupt(0));
}

#[test]
fn device_vectors_are_acknowledged_on_the_primary() {
    let controllers = chained_pics();
    assert_eq!(controllers.acknowledge(InteruptsIndex::Timer.as_u8()), Acknowledgment::Primary);
    assert_eq!(controllers.acknowledge(InteruptsIndex::Keyboard.as_u8()), Acknowledgment::Primary);
}
