use hadron::idt::IDT_VECTORS;
use hadron::init::{
    bind_double_fault, build_gdt, build_idt, build_task_state_segment, ExceptionHandlers,
    InitAction, InitState, DOUBLE_FAULT_IST_INDEX, STACK_SIZE,
};
use hadron::idt::{handler_kind, InterruptDescriptorTable};
use hadron::memory::VirtualAddress;
use hadron::privileges::PLevel;
use hadron::segmentation::SegmentSelector;

fn handlers() -> ExceptionHandlers {
    ExceptionHandlers {
        divide_error: 0x1000,
        debug: 0x1010,
        non_maskable_interrupt: 0x1020,
        breakpoint: 0x1030,
        overflow: 0x1040,
        bound_range_exceeded: 0x1050,
        invalid_opcode: 0x1060,
        device_not_available: 0x1070,
        double_fault: 0x1080,
        invalid_tss: 0x10A0,
        segment_not_present: 0x10B0,
        stack_fault: 0x10C0,
        general_protection: 0x10D0,
        page_fault: 0x10E0,
        x87_fpu_floating_point: 0x1100,
        alignment_check: 0x1110,
        machine_check: 0x1120,
        simd_floating_point: 0x1130,
        virtualization: 0x1140,
        control_protection: 0x1150,
    }
}

#[test]
fn double_fault_stack_constants() {
    assert_eq!(DOUBLE_FAULT_IST_INDEX, 0);
    assert_eq!(STACK_SIZE, 20480);
}

#[test]
fn task_state_segment_points_at_the_stack_top() {
    let tss = build_task_state_segment(VirtualAddress::new(0x8_0000));
    assert_eq!(tss.interrupt_stack_table[0].as_u64(), 0x8_0000 + 20480);
    for slot in 1..7 {
        assert_eq!(tss.interrupt_stack_table[slot].as_u64(), 0);
    }
    for slot in 0..3 {
        assert_eq!(tss.privilege_stack_table[slot].as_u64(), 0);
    }
    assert_eq!(tss.iomap_base, 104);
    let highest = build_task_state_segment(VirtualAddress::new(u64::MAX - 20480));
    assert_eq!(highest.interrupt_stack_table[0].as_u64(), u64::MAX);
}

#[test]
fn built_gdt_holds_code_and_task_state_segment() {
    let (gdt, selectors) = build_gdt(0x1000);
    assert_eq!(
        gdt.as_raw_slice(),
        &[0, 0x00AF_9B00_0000_FFFF, 0x0000_8900_1000_0067, 0]
    );
    assert_eq!(selectors.code_segment_selector, SegmentSelector(0x08));
    assert_eq!(selectors.tss_segment_selector, SegmentSelector(0x10));
    assert_eq!(selectors.code_segment_selector.index(), 1);
    assert_eq!(selectors.tss_segment_selector.index(), 2);
    assert_eq!(selectors.code_segment_selector.privilege_level(), PLevel::Ring0);
    assert_eq!(selectors.tss_segment_selector.privilege_level(), PLevel::Ring0);
}

#[test]
fn built_idt_binds_every_defined_vector() {
    let handlers = handlers();
    let idt = build_idt(&handlers, SegmentSelector(0x08));
    let image = idt.image();
    for vector in 0..IDT_VECTORS {
        let present = image[2 * vector] & (1 << 47) != 0;
        assert_eq!(present, handler_kind(vector as u8).is_some());
        if present {
            assert_eq!((image[2 * vector] >> 16) & 0xFFFF, 0x08);
            assert_eq!(image[2 * vector] & 0xFFFF, 0x1000 + 0x10 * vector as u64);
            assert_eq!((image[2 * vector] >> 40) & 0xF, 0xE);
            let stack_field = (image[2 * vector] >> 32) & 7;
            assert_eq!(stack_field, if vector == 8 { 1 } else { 0 });
        }
    }
    assert_eq!(idt.double_fault.stack_index(), Some(DOUBLE_FAULT_IST_INDEX));
    assert_eq!(idt.page_fault.stack_index(), None);
    assert_eq!(idt.page_fault.handler_address(), 0x10E0);
    assert_eq!(idt.control_protection.handler_address(), 0x1150);
}

#[test]
fn binding_the_double_fault_changes_no_other_vector() {
    let mut idt = InterruptDescriptorTable::new();
    idt.breakpoint.set_handler_address(0x3000, SegmentSelector(0x08));
    let before = idt.image();
    bind_double_fault(&mut idt, 0x8000, SegmentSelector(0x08));
    let after = idt.image();
    for vector in 0..IDT_VECTORS {
        if vector != 8 {
            assert_eq!(after[2 * vector], before[2 * vector]);
            assert_eq!(after[2 * vector + 1], before[2 * vector + 1]);
        }
    }
    assert_eq!(before[16] & (1 << 47), 0);
    assert_ne!(after[16] & (1 << 47), 0);
    assert_eq!((after[16] >> 32) & 7, DOUBLE_FAULT_IST_INDEX as u64 + 1);
    assert_eq!(idt.double_fault.stack_index(), Some(DOUBLE_FAULT_IST_INDEX));
    assert_eq!(idt.double_fault.handler_address(), 0x8000);
}

#[test]
fn bring_up_takes_six_steps_in_order() {
    let mut state = InitState::start();
    let mut actions = Vec::new();
    while let Some(action) = state.pending_action() {
        assert!(!state.is_ready());
        actions.push(action);
        state = state.advance(true).unwrap();
    }
    assert!(state.is_ready());
    assert_eq!(state, InitState::Ready);
    assert_eq!(
        actions,
        vec![
            InitAction::BuildGdt,
            InitAction::LoadGdt,
            InitAction::ReloadSegments,
            InitAction::BuildIdt,
            InitAction::LoadIdt,
            InitAction::Complete,
        ]
    );
}

#[test]
fn bring_up_states_follow_each_other() {
    assert_eq!(InitState::Uninitialized.advance(true), Some(InitState::GdtBuilt));
    assert_eq!(InitState::GdtBuilt.advance(true), Some(InitState::GdtLoaded));
    assert_eq!(InitState::GdtLoaded.advance(true), Some(InitState::SegmentsReloaded));
    assert_eq!(InitState::SegmentsReloaded.advance(true), Some(InitState::IdtBuilt));
    assert_eq!(InitState::IdtBuilt.advance(true), Some(InitState::IdtLoaded));
    assert_eq!(InitState::IdtLoaded.advance(true), Some(InitState::Ready));
}

#[test]
fn bring_up_stops_at_a_failure_and_after_the_end() {
    for state in [
        InitState::Uninitialized,
        InitState::GdtBuilt,
        InitState::GdtLoaded,
        InitState::SegmentsReloaded,
        InitState::IdtBuilt,
        InitState::IdtLoaded,
        InitState::Ready,
    ] {
        assert_eq!(state.advance(false), None);
    }
    assert_eq!(InitState::Ready.advance(true), None);
    assert_eq!(InitState::Ready.pending_action(), None);
}
