use rust_os::gdt::{TaskState, DOUBLE_FAULT_IST_INDEX, DOUBLE_FAULT_STACK_SIZE};
use rust_os::interrupts::{init_idt, Binding, BindError, HandlerKind, InterruptIndex, VectorTable};
use rust_os::QemuExitCode;

#[test]
fn interrupt_index_vectors() {
    assert_eq!(InterruptIndex::Timer.as_u8(), 32);
    assert_eq!(InterruptIndex::Keyboard.as_u8(), 33);
    assert_eq!(InterruptIndex::Timer.as_usize(), 32usize);
    assert_eq!(InterruptIndex::Keyboard.as_usize(), 33usize);
}

#[test]
fn kernel_vector_table_bindings() {
    let idt = init_idt();
    assert_eq!(idt.binding(3), Some(Binding { handler: HandlerKind::Breakpoint, stack_index: None }));
    assert_eq!(
        idt.binding(8),
        Some(Binding { handler: HandlerKind::DoubleFault, stack_index: Some(DOUBLE_FAULT_IST_INDEX) })
    );
    assert_eq!(idt.binding(32), Some(Binding { handler: HandlerKind::Timer, stack_index: None }));
    assert_eq!(idt.binding(33), Some(Binding { handler: HandlerKind::Keyboard, stack_index: None }));
    let bound = (0..=255u8).filter(|v| idt.binding(*v).is_some()).count();
    assert_eq!(bound, 4);
}

#[test]
fn vector_keeps_its_first_handler() {
    let mut t = VectorTable::new();
    assert_eq!(t.set_handler(40, HandlerKind::Timer), Ok(()));
    assert_eq!(t.set_handler(40, HandlerKind::Keyboard), Err(BindError::AlreadyBound));
    assert_eq!(t.binding(40), Some(Binding { handler: HandlerKind::Timer, stack_index: None }));
}

#[test]
fn stack_index_needs_a_handler_and_a_slot() {
    let mut t = VectorTable::new();
    assert_eq!(t.set_stack_index(8, 0), Err(BindError::Unbound));
    t.set_handler(8, HandlerKind::DoubleFault).unwrap();
    assert_eq!(t.set_stack_index(8, 7), Err(BindError::BadStackIndex));
    assert_eq!(t.set_stack_index(8, 6), Ok(()));
    assert_eq!(t.binding(8), Some(Binding { handler: HandlerKind::DoubleFault, stack_index: Some(6) }));
}

#[test]
fn reserved_stack_end_fills_double_fault_slot() {
    assert_eq!(DOUBLE_FAULT_STACK_SIZE, 20 * 1024);
    let start: u64 = 0x0044_4444_0000;
    let t = TaskState::with_double_fault_stack(start, DOUBLE_FAULT_STACK_SIZE).unwrap();
    assert_eq!(t.interrupt_stack(DOUBLE_FAULT_IST_INDEX), start + 20480);
    for slot in 1..7u16 {
        assert_eq!(t.interrupt_stack(slot), 0);
    }
}

#[test]
fn empty_task_state_has_no_stacks() {
    let t = TaskState::new();
    for slot in 0..7u16 {
        assert_eq!(t.interrupt_stack(slot), 0);
    }
}

#[test]
fn stack_end_must_be_canonical_as_it_stands() {
    // the end crosses into bit 47, which the address type would sign-extend
    assert!(TaskState::with_double_fault_stack(0x7fff_ffff_b000, DOUBLE_FAULT_STACK_SIZE).is_none());
    // bits above 47 carry data
    assert!(TaskState::with_double_fault_stack(0x0001_0000_0000_0000, 16).is_none());
    // the end overflows
    assert!(TaskState::with_double_fault_stack(u64::MAX - 10, 16).is_none());
    // a higher-half address is canonical
    let t = TaskState::with_double_fault_stack(0xffff_8000_0000_0000, 0x1000).unwrap();
    assert_eq!(t.interrupt_stack(0), 0xffff_8000_0000_1000);
}

#[test]
fn exit_codes() {
    assert_eq!(QemuExitCode::Success.code(), 0x10);
    assert_eq!(QemuExitCode::Failed.code(), 0x11);
}
