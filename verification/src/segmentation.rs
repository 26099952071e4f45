//! Segment selectors, segment descriptors and the task state segment.
use crate::bits::{
    bits_of_u16, bits_of_u64, fits_u16, fits_u64, get_bits_u16, get_bits_u64, set_bits_u16,
    set_bits_u64, with_bits_u16, with_bits_u64,
};
use crate::memory::VirtualAddress;
use crate::privileges::PLevel;
use crate::registers::Msr;
use vstd::prelude::*;

verus! {

/// A 16-bit reference to a descriptor-table slot: the slot's index in bits 3
/// to 15, the table indicator in bit 2 and the requested privilege level in
/// bits 0 and 1.
#[derive(Clone, Copy, PartialEq, Eq, Structural, PartialOrd, Ord, Debug, Hash)]
pub struct SegmentSelector(pub u16);

/// The slot index that a raw selector holds.
pub open spec fn selector_index(raw: u16) -> u16 {
    raw >> 3
}

/// The requested privilege level that a raw selector holds, as a number.
pub open spec fn selector_rpl(raw: u16) -> u16 {
    raw & 3
}

/// The raw selector for a slot index and a ring number.
pub open spec fn selector_raw(index: u16, rpl: u16) -> u16 {
    (index << 3) | rpl
}

proof fn lemma_selector_bits(index: u16, rpl: u16, raw: u16)
    by (bit_vector)
    ensures
        rpl <= 3 ==> selector_rpl(selector_raw(index, rpl)) == rpl,
        rpl <= 3 ==> selector_raw(index, rpl) & 4 == 0,
        rpl <= 3 && index <= 8191 ==> selector_index(selector_raw(index, rpl)) == index,
        selector_index(raw) <= 8191,
        selector_rpl(raw) <= 3,
        bits_of_u16(raw, 0, 2) == selector_rpl(raw),
        rpl <= 3 ==> fits_u16(rpl, 2),
        rpl <= 3 ==> with_bits_u16(raw, 0, 2, rpl) == (raw & !3u16) | rpl,
        rpl <= 3 ==> selector_rpl((raw & !3u16) | rpl) == rpl,
        rpl <= 3 ==> selector_index((raw & !3u16) | rpl) == selector_index(raw),
        rpl <= 3 ==> ((raw & !3u16) | rpl) & 4 == raw & 4,
{
}

impl SegmentSelector {
    /// The selector for slot 0 at ring 0, which refers to no segment.
    pub fn null() -> (selector: Self)
        ensures
            selector.0 == 0,
            selector.0 == selector_raw(0, PLevel::Ring0.ordinal()),
            selector.index_value() == 0,
            selector.level() == PLevel::Ring0,
    {
        proof {
            lemma_selector_bits(0, 0, 0);
            assert(selector_raw(0, 0) == 0) by (bit_vector);
        }
        Self::new(0, PLevel::Ring0)
    }

    /// The slot index, as a number.
    pub open spec fn index_value(self) -> u16 {
        selector_index(self.0)
    }

    /// The requested privilege level.
    pub open spec fn level(self) -> PLevel {
        PLevel::of_ordinal(selector_rpl(self.0))
    }

    /// The selector for slot `index` of the global table at the requested
    /// privilege level. The index goes into the upper 13 bits, the level into
    /// the lower 2; bit 2 stays clear. An index above 8191 loses its upper
    /// bits.
    pub fn new(index: u16, privilege_level: PLevel) -> (selector: Self)
        ensures
            selector.0 == selector_raw(index, privilege_level.ordinal()),
            selector.level() == privilege_level,
            selector.0 & 4 == 0,
            index <= 8191 ==> selector.index_value() == index,
    {
        let rpl: u16 = privilege_level.as_u16();
        proof {
            lemma_selector_bits(index, rpl, 0);
            crate::privileges::lemma_ordinal_round_trip(privilege_level, 0);
        }
        Self((index << 3) | rpl)
    }

    /// The index of the slot that the selector refers to.
    pub fn index(self) -> (index: u16)
        ensures
            index == self.index_value(),
            index <= 8191,
    {
        proof {
            lemma_selector_bits(0, 0, self.0);
        }
        self.0 >> 3
    }

    /// The requested privilege level: bits 0 and 1.
    pub fn privilege_level(self) -> (level: PLevel)
        ensures
            level == self.level(),
            level.ordinal() == selector_rpl(self.0),
    {
        proof {
            lemma_selector_bits(0, 0, self.0);
        }
        PLevel::from_u16(get_bits_u16(self.0, 0, 2))
    }

    /// Replaces the requested privilege level and keeps every other bit.
    pub fn set_privilege_level(&mut self, privilege_level: PLevel)
        ensures
            final(self).0 == (old(self).0 & !3u16) | privilege_level.ordinal(),
            final(self).level() == privilege_level,
            final(self).index_value() == old(self).index_value(),
            final(self).0 & 4 == old(self).0 & 4,
    {
        let rpl: u16 = privilege_level.as_u16();
        proof {
            lemma_selector_bits(0, rpl, self.0);
            crate::privileges::lemma_ordinal_round_trip(privilege_level, 0);
        }
        set_bits_u16(&mut self.0, 0, 2, rpl);
    }
}

/// Packing a slot index up to 8191 and a ring into a selector and reading them
/// back gives the same index and the same ring.
pub proof fn lemma_selector_round_trip(index: u16, privilege_level: PLevel)
    requires
        index <= 8191,
    ensures
        SegmentSelector(selector_raw(index, privilege_level.ordinal())).index_value() == index,
        SegmentSelector(selector_raw(index, privilege_level.ordinal())).level() == privilege_level,
{
    lemma_selector_bits(index, privilege_level.ordinal(), 0);
    crate::privileges::lemma_ordinal_round_trip(privilege_level, 0);
}

/// Reading a selector's index and ring and packing them again gives the same
/// selector, provided its table-indicator bit is clear.
pub proof fn lemma_selector_rebuild(selector: SegmentSelector)
    requires
        selector.0 & 4 == 0,
    ensures
        selector_raw(selector.index_value(), selector.level().ordinal()) == selector.0,
{
    let raw = selector.0;
    lemma_selector_bits(0, 0, raw);
    crate::privileges::lemma_ordinal_round_trip(PLevel::Ring0, selector_rpl(raw));
    assert(raw & 4 == 0 ==> ((raw >> 3) << 3) | (raw & 3) == raw) by (bit_vector);
}

/// The bits of a segment descriptor's low word. Not every bit has a meaning
/// for every kind of descriptor.
#[derive(Clone, Copy, PartialEq, Eq, Structural, Debug, Hash)]
pub struct DescriptorFlags {
    bits: u64,
}

impl DescriptorFlags {
    /// Set by the processor when the segment is used.
    pub const ACCESSED: u64 = 1 << 40;
    /// Data segments: writable. Code segments: readable.
    pub const WRITABLE: u64 = 1 << 41;
    /// Code segments: callable from less privileged rings.
    pub const CONFORMING: u64 = 1 << 42;
    /// Code segment. Clear for a data segment.
    pub const EXECUTABLE: u64 = 1 << 43;
    /// Code or data segment. Clear for a system segment.
    pub const USER_SEGMENT: u64 = 1 << 44;
    /// The two bits of the descriptor privilege level, both set: ring 3.
    pub const DPL_RING_3: u64 = 3 << 45;
    /// The segment is present.
    pub const PRESENT: u64 = 1 << 47;
    /// Free for the system's own use.
    pub const AVAILABLE: u64 = 1 << 52;
    /// 64-bit code segment.
    pub const LONG_MODE: u64 = 1 << 53;
    /// 32-bit segment. Must be clear in a 64-bit code segment.
    pub const DEFAULT_SIZE: u64 = 1 << 54;
    /// The limit counts pages of 4 KiB.
    pub const GRANULARITY: u64 = 1 << 55;
    /// Bits 0 to 15 of the limit.
    pub const LIMIT_0_15: u64 = 0xFFFF;
    /// Bits 16 to 19 of the limit.
    pub const LIMIT_16_19: u64 = 0xF << 48;
    /// Bits 0 to 23 of the base.
    pub const BASE_0_23: u64 = 0xFF_FFFF << 16;
    /// Bits 24 to 31 of the base.
    pub const BASE_24_31: u64 = 0xFF << 56;

    /// What every flat code or data segment has: a present, writable,
    /// accessed user segment with the full limit in pages.
    pub const COMMON: u64 = DescriptorFlags::USER_SEGMENT | DescriptorFlags::PRESENT
        | DescriptorFlags::WRITABLE | DescriptorFlags::ACCESSED | DescriptorFlags::LIMIT_0_15
        | DescriptorFlags::LIMIT_16_19 | DescriptorFlags::GRANULARITY;
    /// A ring-0 data segment.
    pub const KERNEL_DATA: u64 = DescriptorFlags::COMMON | DescriptorFlags::DEFAULT_SIZE;
    /// A ring-0 32-bit code segment.
    pub const KERNEL_CODE32: u64 = DescriptorFlags::COMMON | DescriptorFlags::EXECUTABLE
        | DescriptorFlags::DEFAULT_SIZE;
    /// A ring-0 64-bit code segment.
    pub const KERNEL_CODE64: u64 = DescriptorFlags::COMMON | DescriptorFlags::EXECUTABLE
        | DescriptorFlags::LONG_MODE;
    /// A ring-3 data segment.
    pub const USER_DATA: u64 = DescriptorFlags::KERNEL_DATA | DescriptorFlags::DPL_RING_3;
    /// A ring-3 32-bit code segment.
    pub const USER_CODE32: u64 = DescriptorFlags::KERNEL_CODE32 | DescriptorFlags::DPL_RING_3;
    /// A ring-3 64-bit code segment.
    pub const USER_CODE64: u64 = DescriptorFlags::KERNEL_CODE64 | DescriptorFlags::DPL_RING_3;

    /// The flags as a word.
    pub closed spec fn raw(self) -> u64 {
        self.bits
    }

    /// The flags that the word holds. Every bit of a descriptor word is a flag
    /// or part of a field, so none is dropped.
    pub fn from_bits_truncate(bits: u64) -> (flags: Self)
        ensures
            flags.raw() == bits,
    {
        Self { bits }
    }

    /// The flags as a word.
    pub fn bits(self) -> (bits: u64)
        ensures
            bits == self.raw(),
    {
        self.bits
    }

    /// Whether every bit of `mask` is set.
    pub fn contains(self, mask: u64) -> (all: bool)
        ensures
            all == (self.raw() & mask == mask),
    {
        self.bits & mask == mask
    }
}

/// The size in bytes of the task state segment as the processor lays it out:
/// a reserved doubleword, three privilege stack pointers, a reserved quadword,
/// seven interrupt stack pointers, a reserved quadword, a reserved word and the
/// I/O map base, with no padding between them.
pub const TSS_SIZE: u64 = 104;

/// The type code of an available 64-bit task state segment.
pub const TSS_AVAILABLE: u64 = 0b1001;

/// An entry of the global descriptor table: a code or data segment in one word,
/// or a system segment in two consecutive words, low word first.
#[derive(Clone, Copy, PartialEq, Eq, Structural, Debug)]
pub enum Descriptor {
    UserSegment(u64),
    SystemSegment(u64, u64),
}

/// The descriptor privilege level in a descriptor's low word, as a number.
pub open spec fn word_dpl(low: u64) -> u16 {
    ((low & DescriptorFlags::DPL_RING_3) >> 45) as u16
}

/// The segment base that the two words of a system descriptor hold.
pub open spec fn system_base(low: u64, high: u64) -> u64 {
    ((low >> 16) & 0xFF_FFFF) | (((low >> 56) & 0xFF) << 24) | (high << 32)
}

/// The segment limit that a descriptor's low word holds.
pub open spec fn word_limit(low: u64) -> u64 {
    (low & 0xFFFF) | (((low >> 48) & 0xF) << 16)
}

/// The type code that a system descriptor's low word holds.
pub open spec fn system_type(low: u64) -> u64 {
    (low >> 40) & 0xF
}

/// The low word of the descriptor of a task state segment at `address`: the
/// present bit, the available-TSS type code, the low 32 bits of the address in
/// the two base fields and the segment's last byte offset as the limit.
pub open spec fn tss_low_word(address: u64) -> u64 {
    DescriptorFlags::PRESENT | (TSS_AVAILABLE << 40) | ((address & 0xFF_FFFF) << 16) | (((address
        >> 24) & 0xFF) << 56) | ((TSS_SIZE - 1) as u64)
}

/// The high word of the descriptor of a task state segment at `address`: the
/// upper 32 bits of the address, the rest clear.
pub open spec fn tss_high_word(address: u64) -> u64 {
    address >> 32
}

proof fn lemma_dpl_in_range(low: u64)
    by (bit_vector)
    ensures
        (low & DescriptorFlags::DPL_RING_3) >> 45 <= 3,
        word_dpl(low) == (low >> 45) & 3,
{
}

proof fn lemma_tss_words(address: u64)
    by (bit_vector)
    ensures
        ({
            let base_low = bits_of_u64(address, 0, 24);
            let base_mid = bits_of_u64(address, 24, 32);
            let base_high = bits_of_u64(address, 32, 64);
            let step1 = with_bits_u64(DescriptorFlags::PRESENT, 16, 40, base_low);
            let step2 = with_bits_u64(step1, 56, 64, base_mid);
            let step3 = with_bits_u64(step2, 0, 16, 103);
            let step4 = with_bits_u64(step3, 40, 44, 0b1001);
            &&& fits_u64(base_low, 24)
            &&& fits_u64(base_mid, 8)
            &&& fits_u64(base_high, 32)
            &&& fits_u64(103, 16)
            &&& fits_u64(0b1001, 4)
            &&& step4 == tss_low_word(address)
            &&& with_bits_u64(0, 0, 32, base_high) == tss_high_word(address)
        }),
{
}

impl Descriptor {
    /// The descriptor's first word, which holds its flags.
    pub open spec fn low(self) -> u64 {
        match self {
            Descriptor::UserSegment(value) => value,
            Descriptor::SystemSegment(value, _) => value,
        }
    }

    /// The number of table slots that the descriptor takes.
    pub open spec fn slots(self) -> nat {
        match self {
            Descriptor::UserSegment(_) => 1,
            Descriptor::SystemSegment(_, _) => 2,
        }
    }

    /// The descriptor privilege level: bits 45 and 46 of the first word.
    pub fn dpl(self) -> (level: PLevel)
        ensures
            level.ordinal() == word_dpl(self.low()),
            level == PLevel::of_ordinal(word_dpl(self.low())),
    {
        let value_low: u64 = match self {
            Descriptor::UserSegment(value) => value,
            Descriptor::SystemSegment(value, _) => value,
        };
        proof {
            lemma_dpl_in_range(value_low);
        }
        let dpl: u64 = (value_low & DescriptorFlags::DPL_RING_3) >> 45;
        PLevel::from_u16(dpl as u16)
    }

    /// The flat 64-bit code segment of ring 0.
    pub fn kernel_code_segment() -> (descriptor: Descriptor)
        ensures
            descriptor == Descriptor::UserSegment(DescriptorFlags::KERNEL_CODE64),
            descriptor.low() == 0x00AF_9B00_0000_FFFF,
            word_dpl(descriptor.low()) == 0,
            descriptor.low() & DescriptorFlags::EXECUTABLE != 0,
            descriptor.low() & DescriptorFlags::LONG_MODE != 0,
    {
        proof {
            lemma_preset_words();
        }
        Descriptor::UserSegment(DescriptorFlags::KERNEL_CODE64)
    }

    /// The flat data segment of ring 0.
    pub fn kernel_data_segment() -> (descriptor: Descriptor)
        ensures
            descriptor == Descriptor::UserSegment(DescriptorFlags::KERNEL_DATA),
            descriptor.low() == 0x00CF_9300_0000_FFFF,
            word_dpl(descriptor.low()) == 0,
            descriptor.low() & DescriptorFlags::EXECUTABLE == 0,
            descriptor.low() & DescriptorFlags::LONG_MODE == 0,
    {
        proof {
            lemma_preset_words();
        }
        Descriptor::UserSegment(DescriptorFlags::KERNEL_DATA)
    }

    /// The flat data segment of ring 3.
    pub fn user_data_segment() -> (descriptor: Descriptor)
        ensures
            descriptor == Descriptor::UserSegment(DescriptorFlags::USER_DATA),
            descriptor.low() == 0x00CF_F300_0000_FFFF,
            word_dpl(descriptor.low()) == 3,
            descriptor.low() & DescriptorFlags::EXECUTABLE == 0,
            descriptor.low() & DescriptorFlags::LONG_MODE == 0,
    {
        proof {
            lemma_preset_words();
        }
        Descriptor::UserSegment(DescriptorFlags::USER_DATA)
    }

    /// The flat 64-bit code segment of ring 3.
    pub fn user_code_segment() -> (descriptor: Descriptor)
        ensures
            descriptor == Descriptor::UserSegment(DescriptorFlags::USER_CODE64),
            descriptor.low() == 0x00AF_FB00_0000_FFFF,
            word_dpl(descriptor.low()) == 3,
            descriptor.low() & DescriptorFlags::EXECUTABLE != 0,
            descriptor.low() & DescriptorFlags::LONG_MODE != 0,
    {
        proof {
            lemma_preset_words();
        }
        Descriptor::UserSegment(DescriptorFlags::USER_CODE64)
    }

    /// The system descriptor of a task state segment that lies at `address`.
    ///
    /// The processor reads the segment through this address for as long as the
    /// descriptor is installed: the caller keeps the segment alive and in
    /// place for that time.
    pub fn tss_segment(address: u64) -> (descriptor: Descriptor)
        ensures
            descriptor == Descriptor::SystemSegment(tss_low_word(address), tss_high_word(address)),
    {
        proof {
            lemma_tss_words(address);
        }
        let mut low: u64 = DescriptorFlags::PRESENT;
        set_bits_u64(&mut low, 16, 40, get_bits_u64(address, 0, 24));
        set_bits_u64(&mut low, 56, 64, get_bits_u64(address, 24, 32));
        set_bits_u64(&mut low, 0, 16, TSS_SIZE - 1);
        set_bits_u64(&mut low, 40, 44, TSS_AVAILABLE);
        let mut high: u64 = 0;
        set_bits_u64(&mut high, 0, 32, get_bits_u64(address, 32, 64));
        Descriptor::SystemSegment(low, high)
    }
}

/// The four flat segments as words: ring 0 in the privilege field of the
/// kernel segments and ring 3 in that of the user segments, the executable bit
/// in the code segments only, the long-mode bit in the 64-bit code segments
/// only, and each of them a present user segment.
pub proof fn lemma_preset_words()
    by (bit_vector)
    ensures
        DescriptorFlags::KERNEL_CODE64 == 0x00AF_9B00_0000_FFFF,
        DescriptorFlags::KERNEL_DATA == 0x00CF_9300_0000_FFFF,
        DescriptorFlags::USER_CODE64 == 0x00AF_FB00_0000_FFFF,
        DescriptorFlags::USER_DATA == 0x00CF_F300_0000_FFFF,
        DescriptorFlags::KERNEL_CODE32 == 0x00CF_9B00_0000_FFFF,
        DescriptorFlags::USER_CODE32 == 0x00CF_FB00_0000_FFFF,
        word_dpl(DescriptorFlags::KERNEL_CODE64) == 0,
        word_dpl(DescriptorFlags::KERNEL_DATA) == 0,
        word_dpl(DescriptorFlags::USER_CODE64) == 3,
        word_dpl(DescriptorFlags::USER_DATA) == 3,
        DescriptorFlags::KERNEL_CODE64 & DescriptorFlags::EXECUTABLE != 0,
        DescriptorFlags::USER_CODE64 & DescriptorFlags::EXECUTABLE != 0,
        DescriptorFlags::KERNEL_DATA & DescriptorFlags::EXECUTABLE == 0,
        DescriptorFlags::USER_DATA & DescriptorFlags::EXECUTABLE == 0,
        DescriptorFlags::KERNEL_CODE64 & DescriptorFlags::LONG_MODE != 0,
        DescriptorFlags::USER_CODE64 & DescriptorFlags::LONG_MODE != 0,
        DescriptorFlags::KERNEL_DATA & DescriptorFlags::LONG_MODE == 0,
        DescriptorFlags::USER_DATA & DescriptorFlags::LONG_MODE == 0,
        DescriptorFlags::KERNEL_CODE32 & DescriptorFlags::LONG_MODE == 0,
        DescriptorFlags::USER_CODE32 & DescriptorFlags::LONG_MODE == 0,
{
}

/// The descriptor of a task state segment decodes to what it was built from:
/// its base is the segment's address, its limit the segment's last byte
/// offset, its type the available 64-bit TSS, its present bit set, its
/// privilege level ring 0, and it is marked as a system segment.
pub proof fn lemma_tss_descriptor_decodes(address: u64)
    by (bit_vector)
    ensures
        system_base(tss_low_word(address), tss_high_word(address)) == address,
        word_limit(tss_low_word(address)) == TSS_SIZE - 1,
        system_type(tss_low_word(address)) == TSS_AVAILABLE,
        tss_low_word(address) & DescriptorFlags::PRESENT != 0,
        tss_low_word(address) & DescriptorFlags::USER_SEGMENT == 0,
        word_dpl(tss_low_word(address)) == 0,
{
}

/// The task state segment: the stacks that the processor switches to when it
/// changes ring or delivers an interrupt whose gate names an interrupt stack.
///
/// The fields stand in the order in which the processor lays them out. `r1` to
/// `r4` are reserved and stay zero.
#[derive(Clone, Copy, Debug)]
pub struct TaskStateSegment {
    pub r1: u32,
    pub privilege_stack_table: [VirtualAddress; 3],
    pub r2: u64,
    pub interrupt_stack_table: [VirtualAddress; 7],
    pub r3: u64,
    pub r4: u16,
    pub iomap_base: u16,
}

impl TaskStateSegment {
    /// Whether every reserved field is zero, as the processor requires.
    pub open spec fn reserved_clear(&self) -> bool {
        self.r1 == 0 && self.r2 == 0 && self.r3 == 0 && self.r4 == 0
    }

    /// A segment with every stack pointer zero and no I/O permission map: the
    /// map's base lies at the segment's end.
    pub fn new() -> (tss: Self)
        ensures
            tss.reserved_clear(),
            tss.iomap_base == TSS_SIZE,
            forall|i: int| 0 <= i < 3 ==> (#[trigger] tss.privilege_stack_table@[i])@ == 0,
            forall|i: int| 0 <= i < 7 ==> (#[trigger] tss.interrupt_stack_table@[i])@ == 0,
    {
        Self {
            r1: 0,
            privilege_stack_table: [VirtualAddress(0);3],
            r2: 0,
            interrupt_stack_table: [VirtualAddress(0);7],
            r3: 0,
            r4: 0,
            iomap_base: TSS_SIZE as u16,
        }
    }
}

/// The number of 32-bit words of the task state segment's image.
pub const TSS_WORDS: usize = 26;

/// The lower or the upper half of a 64-bit field, as the image holds it: the
/// lower half first.
pub open spec fn half_word(field: u64, upper: bool) -> u32 {
    if upper {
        (field >> 32) as u32
    } else {
        (field & 0xFFFF_FFFF) as u32
    }
}

impl TaskStateSegment {
    /// Word `i` of the segment as the processor reads it, in 32-bit words:
    /// the first reserved field in word 0, the privilege stacks in words 1 to
    /// 6, a reserved field in words 7 and 8, the interrupt stacks in words 9
    /// to 22, a reserved field in words 23 and 24, and in word 25 the last
    /// reserved field with the I/O map base above it.
    pub open spec fn image_word(&self, i: int) -> u32 {
        if i == 0 {
            self.r1
        } else if 1 <= i <= 6 {
            half_word(self.privilege_stack_table@[(i - 1) / 2]@, (i - 1) % 2 == 1)
        } else if 7 <= i <= 8 {
            half_word(self.r2, i == 8)
        } else if 9 <= i <= 22 {
            half_word(self.interrupt_stack_table@[(i - 9) / 2]@, (i - 9) % 2 == 1)
        } else if 23 <= i <= 24 {
            half_word(self.r3, i == 24)
        } else {
            (self.r4 as u32) | ((self.iomap_base as u32) << 16)
        }
    }

    /// The segment as the processor reads it: 26 words of 32 bits with no
    /// padding between the fields, 104 bytes in all.
    pub fn image(&self) -> (words: Vec<u32>)
        ensures
            words@.len() == TSS_WORDS,
            4 * words@.len() == TSS_SIZE,
            forall|i: int| 0 <= i < TSS_WORDS ==> words@[i] == #[trigger] self.image_word(i),
    {
        let mut words: Vec<u32> = Vec::new();
        words.push(self.r1);
        let mut ring: usize = 0;
        while ring < 3
            invariant
                ring <= 3,
                words@.len() == 1 + 2 * ring,
                forall|i: int| 0 <= i < words@.len() ==> words@[i] == #[trigger] self.image_word(i),
            decreases 3 - ring,
        {
            let halves = Msr::split(self.privilege_stack_table[ring].as_u64());
            words.push(halves.1);
            words.push(halves.0);
            ring += 1;
        }
        let halves = Msr::split(self.r2);
        words.push(halves.1);
        words.push(halves.0);
        let mut stack: usize = 0;
        while stack < 7
            invariant
                stack <= 7,
                words@.len() == 9 + 2 * stack,
                forall|i: int| 0 <= i < words@.len() ==> words@[i] == #[trigger] self.image_word(i),
            decreases 7 - stack,
        {
            let halves = Msr::split(self.interrupt_stack_table[stack].as_u64());
            words.push(halves.1);
            words.push(halves.0);
            stack += 1;
        }
        let halves = Msr::split(self.r3);
        words.push(halves.1);
        words.push(halves.0);
        words.push((self.r4 as u32) | ((self.iomap_base as u32) << 16));
        words
    }
}

/// The last word of the image holds the I/O map base in its upper half and
/// the last reserved field in its lower half.
pub proof fn lemma_image_last_word(tss: TaskStateSegment)
    ensures
        tss.image_word(25) >> 16 == tss.iomap_base,
        tss.image_word(25) & 0xFFFF == tss.r4,
{
    let r4 = tss.r4;
    let base = tss.iomap_base;
    assert((((r4 as u32) | ((base as u32) << 16)) >> 16) == base && (((r4 as u32) | ((base as u32)
        << 16)) & 0xFFFF) == r4) by (bit_vector);
}

/// The code segment register.
pub struct CodeSegment;

/// The stack segment register.
pub struct StackSegment;

/// The data segment register.
pub struct DataSegment;

/// The FS segment register.
pub struct FSegment;

/// The GS segment register.
pub struct GSegment;

/// A segment register that holds a selector.
pub trait Segment32 {
    /// The selector that the register holds.
    fn get_reg() -> SegmentSelector;

    /// Loads the register with a selector.
    fn set_reg(sel: SegmentSelector);
}

/// A segment register whose base lives in a model-specific register.
pub trait Segment64: Segment32 {
    /// The model-specific register that holds the base.
    const BASE: Msr;

    /// The segment's base address.
    fn read_base() -> VirtualAddress;

    /// Sets the segment's base address.
    fn write_base(base: VirtualAddress);
}

} // verus!
