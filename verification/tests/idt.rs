use hadron::idt::{
    handler_kind, HandlerKind, InterruptDescriptorTable, InterruptDescriptorTableEntry,
    InterruptDescriptorTableEntryOptions, InterruptHandlerFunction, InterruptStackFrame,
    InterruptStackFrameValue, GATE_SIZE, IDT_VECTORS, OPTIONS_MINIMAL, OPTIONS_PRESENT,
};
use hadron::memory::VirtualAddress;
use hadron::paging::PageFaultErrorCode;
use hadron::privileges::PLevel;
use hadron::segmentation::SegmentSelector;

const ABSENT: (u64, u64) = (0x0000_0E00_0000_0000, 0);

#[test]
fn null_entry_is_not_present() {
    let entry: InterruptDescriptorTableEntry<InterruptHandlerFunction> =
        InterruptDescriptorTableEntry::null();
    assert!(!entry.is_present());
    assert_eq!(entry.handler_address(), 0);
    assert_eq!(entry.code_selector(), SegmentSelector(0));
    assert_eq!(entry.options().0, 0b1110_0000_0000);
    assert_eq!(entry.stack_index(), None);
    assert_eq!(entry.encode(), ABSENT);
}

#[test]
fn default_options_are_an_absent_interrupt_gate() {
    let options = InterruptDescriptorTableEntryOptions::default();
    assert_eq!(options.0, OPTIONS_MINIMAL);
    assert_eq!(options.0 & OPTIONS_PRESENT, 0);
    assert_eq!((options.0 >> 8) & 0xF, 0xE);
    assert_eq!((options.0 >> 13) & 3, 0);
    assert_eq!(options.0 & 7, 0);
}

#[test]
fn options_fields_are_set_one_by_one() {
    let mut options = InterruptDescriptorTableEntryOptions::default();
    options.set_present(true);
    assert_eq!(options.0, 0x8E00);
    options.set_stack_index(0);
    assert_eq!(options.0, 0x8E01);
    options.set_stack_index(6);
    assert_eq!(options.0, 0x8E07);
    options.set_privilege_level(PLevel::Ring3);
    assert_eq!(options.0, 0xEE07);
    options.set_privilege_level(PLevel::Ring1);
    assert_eq!(options.0, 0xAE07);
    options.set_present(false);
    assert_eq!(options.0, 0x2E07);
    options.set_privilege_level(PLevel::Ring0);
    assert_eq!(options.0, 0x0E07);
}

#[test]
fn new_table_has_no_present_entry() {
    let idt = InterruptDescriptorTable::new();
    assert!(!idt.divide_error.is_present());
    assert!(!idt.debug.is_present());
    assert!(!idt.non_maskable_interrupt.is_present());
    assert!(!idt.breakpoint.is_present());
    assert!(!idt.overflow.is_present());
    assert!(!idt.bound_range_exceeded.is_present());
    assert!(!idt.invalid_opcode.is_present());
    assert!(!idt.device_not_available.is_present());
    assert!(!idt.double_fault.is_present());
    assert!(!idt.invalid_tss.is_present());
    assert!(!idt.segment_not_present.is_present());
    assert!(!idt.stack_fault.is_present());
    assert!(!idt.general_protection.is_present());
    assert!(!idt.page_fault.is_present());
    assert!(!idt.x87_fpu_floating_point.is_present());
    assert!(!idt.alignment_check.is_present());
    assert!(!idt.machine_check.is_present());
    assert!(!idt.simd_floating_point.is_present());
    assert!(!idt.virtualization.is_present());
    assert!(!idt.control_protection.is_present());
    for vector in 0..=255u8 {
        assert_eq!(idt.gate(vector), ABSENT);
    }
    let image = idt.image();
    assert_eq!(image.len(), 2 * IDT_VECTORS);
    for vector in 0..IDT_VECTORS {
        assert_eq!((image[2 * vector], image[2 * vector + 1]), ABSENT);
        assert_eq!(image[2 * vector] & (1 << 47), 0);
    }
}

#[test]
fn binding_stores_the_address_in_three_pieces() {
    let mut idt = InterruptDescriptorTable::new();
    let address: u64 = 0xFFFF_8000_1234_5678;
    idt.breakpoint.set_handler_address(address, SegmentSelector::new(1, PLevel::Ring0));
    assert!(idt.breakpoint.is_present());
    assert_eq!(idt.breakpoint.handler_address(), address);
    assert_eq!(idt.breakpoint.code_selector().0, 0x08);
    assert_eq!(idt.breakpoint.options().0, 0x8E00);
    assert_eq!(idt.breakpoint.stack_index(), None);
    let (low, high) = idt.breakpoint.encode();
    assert_eq!(low, 0x1234_8E00_0008_5678);
    assert_eq!(high, 0x0000_0000_FFFF_8000);
    assert_eq!(idt.gate(3), (low, high));
    assert_eq!(idt.gate(2), ABSENT);
    assert_eq!(idt.gate(4), ABSENT);
}

#[test]
fn binding_the_double_fault_entry_selects_its_stack() {
    let mut idt = InterruptDescriptorTable::new();
    assert!(!idt.double_fault.is_present());
    idt.double_fault.set_handler_address(0x40_0000, SegmentSelector(0x08));
    assert!(idt.double_fault.is_present());
    idt.double_fault.set_stack_index(0);
    assert!(idt.double_fault.is_present());
    assert_eq!(idt.double_fault.stack_index(), Some(0));
    assert_eq!(idt.double_fault.options().0 & 7, 1);
    assert_eq!(idt.double_fault.options().0, 0x8E01);
    assert_eq!(idt.double_fault.handler_address(), 0x40_0000);
    let image = idt.image();
    assert_eq!(image[16], 0x0040_8E01_0008_0000);
    assert_eq!(image[17], 0);
    assert_ne!(image[16] & (1 << 47), 0);
}

#[test]
fn rebinding_resets_the_options() {
    let mut idt = InterruptDescriptorTable::new();
    idt.double_fault.set_handler_address(0x1000, SegmentSelector(0x08));
    idt.double_fault.set_stack_index(3);
    assert_eq!(idt.double_fault.stack_index(), Some(3));
    idt.double_fault.set_handler_address(0x2000, SegmentSelector(0x10));
    assert_eq!(idt.double_fault.stack_index(), None);
    assert_eq!(idt.double_fault.options().0, 0x8E00);
    assert_eq!(idt.double_fault.handler_address(), 0x2000);
    assert_eq!(idt.double_fault.code_selector().0, 0x10);
    idt.double_fault.set_present(false);
    assert!(!idt.double_fault.is_present());
    assert_eq!(idt.double_fault.handler_address(), 0x2000);
}

#[test]
fn reset_makes_every_entry_absent() {
    let mut idt = InterruptDescriptorTable::new();
    idt.page_fault.set_handler_address(0xDEAD_BEEF, SegmentSelector(0x08));
    idt.divide_error.set_handler_address(0xFEED, SegmentSelector(0x08));
    assert_ne!(idt.gate(14), ABSENT);
    idt.reset();
    assert!(!idt.page_fault.is_present());
    assert!(!idt.divide_error.is_present());
    for vector in 0..22u8 {
        assert_eq!(idt.gate(vector), ABSENT);
    }
}

#[test]
fn image_places_each_entry_at_its_vector() {
    let mut idt = InterruptDescriptorTable::new();
    let selector = SegmentSelector(0x08);
    idt.divide_error.set_handler_address(0x100, selector);
    idt.invalid_tss.set_handler_address(0x10A, selector);
    idt.page_fault.set_handler_address(0x10E, selector);
    idt.x87_fpu_floating_point.set_handler_address(0x110, selector);
    idt.control_protection.set_handler_address(0x115, selector);
    let image = idt.image();
    assert_eq!(image.len(), 44);
    assert_eq!(image[0] & 0xFFFF, 0x100);
    assert_eq!(image[2 * 10] & 0xFFFF, 0x10A);
    assert_eq!(image[2 * 14] & 0xFFFF, 0x10E);
    assert_eq!(image[2 * 16] & 0xFFFF, 0x110);
    assert_eq!(image[2 * 21] & 0xFFFF, 0x115);
    assert_eq!((image[2 * 9], image[2 * 9 + 1]), ABSENT);
    assert_eq!((image[2 * 15], image[2 * 15 + 1]), ABSENT);
}

#[test]
fn table_pointer_covers_every_vector() {
    let idt = InterruptDescriptorTable::new();
    let base = VirtualAddress::new(0x7000);
    let pointer = idt.pointer(base);
    assert_eq!(pointer.base, base);
    assert_eq!(pointer.limit as usize, IDT_VECTORS * GATE_SIZE - 1);
    assert_eq!(pointer.limit, 351);
}

#[test]
fn handler_kinds_follow_the_architecture() {
    for vector in [0u8, 1, 2, 3, 4, 5, 6, 7, 16, 18, 19, 20] {
        assert_eq!(handler_kind(vector), Some(HandlerKind::NoErrorCode));
    }
    for vector in [8u8, 10, 11, 12, 13, 17, 21] {
        assert_eq!(handler_kind(vector), Some(HandlerKind::WithErrorCode));
    }
    assert_eq!(handler_kind(14), Some(HandlerKind::PageFault));
    assert_eq!(handler_kind(9), None);
    assert_eq!(handler_kind(15), None);
    for vector in 22..=255u8 {
        assert_eq!(handler_kind(vector), None);
    }
}

#[test]
fn stack_frame_is_read_back_unchanged() {
    let value = InterruptStackFrameValue {
        instruction_pointer: VirtualAddress::new(0x20_1000),
        code_segment: 0x08,
        cpu_flags: 0x202,
        stack_pointer: VirtualAddress::new(0x7FFF_F000),
        stack_segment: 0x10,
    };
    let frame = InterruptStackFrame::new(value);
    assert_eq!(frame.value(), value);
    assert_eq!(frame.instruction_pointer(), VirtualAddress::new(0x20_1000));
    assert_eq!(frame.code_segment(), 0x08);
    assert_eq!(frame.cpu_flags(), 0x202);
    assert_eq!(frame.stack_pointer().as_u64(), 0x7FFF_F000);
    assert_eq!(frame.stack_segment(), 0x10);
}

#[test]
fn page_fault_on_an_absent_page_reports_no_protection_violation() {
    let code = PageFaultErrorCode::from_bits_truncate(0b110);
    assert!(!code.contains(PageFaultErrorCode::CAUSED_BY_PROTECTION_VIOLATION));
    assert!(code.contains(PageFaultErrorCode::CAUSED_BY_WRITE));
    assert!(code.contains(PageFaultErrorCode::CAUSED_BY_USER_MODE));
    assert!(code.contains(
        PageFaultErrorCode::CAUSED_BY_WRITE | PageFaultErrorCode::CAUSED_BY_USER_MODE
    ));
    assert!(!code.contains(PageFaultErrorCode::CAUSED_BY_INSTRUCTION_FETCH));
    assert_eq!(code.bits(), 0b110);
}

#[test]
fn page_fault_code_keeps_only_named_causes() {
    assert_eq!(PageFaultErrorCode::ALL, 0x80FF);
    assert_eq!(PageFaultErrorCode::from_bits_truncate(u64::MAX).bits(), 0x80FF);
    assert_eq!(PageFaultErrorCode::from_bits_truncate(0x8100).bits(), 0x8000);
    assert_eq!(PageFaultErrorCode::from_bits(0x8011).map(|code| code.bits()), Some(0x8011));
    assert_eq!(PageFaultErrorCode::from_bits(0x0100), None);
    assert_eq!(PageFaultErrorCode::from_bits(1 << 16), None);
    assert_eq!(PageFaultErrorCode::empty().bits(), 0);
    assert!(PageFaultErrorCode::from_bits_truncate(1 << 15).contains(PageFaultErrorCode::CAUSED_BY_SGX));
}
