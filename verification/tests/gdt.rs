use hadron::gdt::{GlobalDescriptorTable, GDT_CAPACITY};
use hadron::memory::VirtualAddress;
use hadron::privileges::PLevel;
use hadron::segmentation::Descriptor;

#[test]
fn new_table_holds_the_null_descriptor() {
    let gdt = GlobalDescriptorTable::new();
    assert_eq!(gdt.len(), 1);
    assert_eq!(gdt.as_raw_slice(), &[0u64]);
}

#[test]
fn add_user_segment_returns_its_index_and_level() {
    let mut gdt = GlobalDescriptorTable::new();
    let code = gdt.add(Descriptor::kernel_code_segment());
    let user = gdt.add(Descriptor::user_data_segment());
    assert_eq!(code.0, 0x08);
    assert_eq!(code.index(), 1);
    assert_eq!(code.privilege_level(), PLevel::Ring0);
    assert_eq!(user.0, 0x13);
    assert_eq!(user.index(), 2);
    assert_eq!(user.privilege_level(), PLevel::Ring3);
    assert_eq!(gdt.as_raw_slice(), &[0, 0x00AF_9B00_0000_FFFF, 0x00CF_F300_0000_FFFF]);
}

#[test]
fn add_system_segment_takes_two_slots() {
    let mut gdt = GlobalDescriptorTable::new();
    let selector = gdt.add(Descriptor::SystemSegment(0x1111, 0x2222));
    let next = gdt.add(Descriptor::UserSegment(0x3333));
    assert_eq!(selector.index(), 1);
    assert_eq!(next.index(), 3);
    assert_eq!(gdt.len(), 4);
    assert_eq!(gdt.as_raw_slice(), &[0, 0x1111, 0x2222, 0x3333]);
}

#[test]
fn add_fills_the_last_slot() {
    let mut gdt = GlobalDescriptorTable::new();
    for i in 1..7u64 {
        gdt.add(Descriptor::UserSegment(i));
    }
    assert_eq!(gdt.len(), 7);
    assert!(gdt.has_room_for(&Descriptor::kernel_data_segment()));
    let selector = gdt.add(Descriptor::kernel_data_segment());
    assert_eq!(selector.index(), 7);
    assert_eq!(selector.0, 0x38);
    assert_eq!(gdt.len(), GDT_CAPACITY);
    assert_eq!(gdt.as_raw_slice()[7], 0x00CF_9300_0000_FFFF);
    assert_eq!(gdt.as_raw_slice()[0], 0);
}

#[test]
fn system_segment_needs_two_free_slots() {
    let mut gdt = GlobalDescriptorTable::new();
    for i in 1..6u64 {
        gdt.add(Descriptor::UserSegment(i));
    }
    assert_eq!(gdt.len(), 6);
    assert!(gdt.has_room_for(&Descriptor::SystemSegment(1, 2)));
    gdt.add(Descriptor::UserSegment(6));
    assert_eq!(gdt.len(), 7);
    assert!(!gdt.has_room_for(&Descriptor::SystemSegment(1, 2)));
    assert!(gdt.has_room_for(&Descriptor::UserSegment(7)));
    gdt.add(Descriptor::UserSegment(7));
    assert!(!gdt.has_room_for(&Descriptor::UserSegment(8)));
    assert!(!gdt.has_room_for(&Descriptor::SystemSegment(1, 2)));
}

#[test]
fn from_raw_slice_keeps_the_words() {
    let words = [0u64, 0x00AF_9B00_0000_FFFF, 0x00CF_9300_0000_FFFF];
    let mut gdt = GlobalDescriptorTable::u_from_raw_slice(&words);
    assert_eq!(gdt.len(), 3);
    assert_eq!(gdt.as_raw_slice(), &words);
    let selector = gdt.add(Descriptor::user_code_segment());
    assert_eq!(selector.0, 0x1B);
    let full = [0u64, 1, 2, 3, 4, 5, 6, 7];
    assert_eq!(GlobalDescriptorTable::u_from_raw_slice(&full).as_raw_slice(), &full);
}

#[test]
fn descriptor_table_pointer_covers_the_words_in_use() {
    let mut gdt = GlobalDescriptorTable::new();
    let base = VirtualAddress::new(0xFFFF_8000_0010_0000);
    let pointer = gdt.as_descriptor_table_pointer(base);
    assert_eq!(pointer.base, base);
    assert_eq!(pointer.limit, 7);
    gdt.add(Descriptor::kernel_code_segment());
    gdt.add(Descriptor::tss_segment(0x1000));
    assert_eq!(gdt.as_descriptor_table_pointer(base).limit, 31);
    for i in 0..4u64 {
        gdt.add(Descriptor::UserSegment(i));
    }
    assert_eq!(gdt.as_descriptor_table_pointer(base).limit, 63);
}
