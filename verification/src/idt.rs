//! The interrupt descriptor table and its gates.
use crate::bits::{fits_u16, set_bits_u16, with_bits_u16};
use crate::memory::VirtualAddress;
use crate::privileges::PLevel;
use crate::segmentation::SegmentSelector;
use crate::table::DescriptorTablePointer;
use core::marker::PhantomData;
use vstd::prelude::*;

verus! {

/// The options of a gate that is not present: a 64-bit interrupt gate, ring 0,
/// on the current stack.
pub const OPTIONS_MINIMAL: u16 = 0x0E00;

/// The present bit of a gate's options.
pub const OPTIONS_PRESENT: u16 = 0x8000;

/// The number of vectors that the table covers: 0 to 21.
pub const IDT_VECTORS: usize = 22;

/// The size in bytes of one gate.
pub const GATE_SIZE: usize = 16;

/// Whether the options mark the entry present.
pub open spec fn options_present(options: u16) -> bool {
    options & OPTIONS_PRESENT != 0
}

/// The interrupt-stack field of the options: 0 for the current stack, else one
/// more than the index of the interrupt stack to switch to.
pub open spec fn options_stack_field(options: u16) -> u16 {
    options & 7
}

/// The type field of the options; `0xE` is a 64-bit interrupt gate.
pub open spec fn options_gate_type(options: u16) -> u16 {
    (options >> 8) & 0xF
}

/// The ring from which the entry may be called, as a number.
pub open spec fn options_dpl(options: u16) -> u16 {
    (options >> 13) & 3
}

/// The two words of a gate, low word first: the handler's address in three
/// pieces around the code selector and the options, the rest clear.
pub open spec fn gate_words(address: u64, selector: u16, options: u16) -> (u64, u64) {
    (
        (address & 0xFFFF) | ((selector as u64) << 16) | ((options as u64) << 32) | (((address
            >> 16) & 0xFFFF) << 48),
        address >> 32,
    )
}

/// The handler address that a gate's words hold.
pub open spec fn words_address(low: u64, high: u64) -> u64 {
    (low & 0xFFFF) | ((low >> 48) << 16) | (high << 32)
}

/// The code selector that a gate's low word holds.
pub open spec fn words_selector(low: u64) -> u16 {
    ((low >> 16) & 0xFFFF) as u16
}

/// The options that a gate's low word holds.
pub open spec fn words_options(low: u64) -> u16 {
    ((low >> 32) & 0xFFFF) as u16
}

/// The kinds of handler, by what the processor hands them.
#[derive(Clone, Copy, PartialEq, Eq, Structural, Debug)]
pub enum HandlerKind {
    /// The handler receives the stack frame only.
    NoErrorCode,
    /// The handler receives the stack frame and a 64-bit error code.
    WithErrorCode,
    /// The handler receives the stack frame and the page-fault error code.
    PageFault,
}

/// The kind of handler that the architecture fixes for a vector, or `None`
/// for a vector that is reserved or lies beyond the table.
pub open spec fn vector_kind(vector: u8) -> Option<HandlerKind> {
    if vector == 14 {
        Some(HandlerKind::PageFault)
    } else if vector == 8 || (10 <= vector <= 13) || vector == 17 || vector == 21 {
        Some(HandlerKind::WithErrorCode)
    } else if vector <= 7 || vector == 16 || (18 <= vector <= 20) {
        Some(HandlerKind::NoErrorCode)
    } else {
        None
    }
}

/// The kind of handler that the architecture fixes for a vector.
pub fn handler_kind(vector: u8) -> (kind: Option<HandlerKind>)
    ensures
        kind == vector_kind(vector),
{
    if vector == 14 {
        Some(HandlerKind::PageFault)
    } else if vector == 8 || (10 <= vector && vector <= 13) || vector == 17 || vector == 21 {
        Some(HandlerKind::WithErrorCode)
    } else if vector <= 7 || vector == 16 || (18 <= vector && vector <= 20) {
        Some(HandlerKind::NoErrorCode)
    } else {
        None
    }
}

/// Marks a gate whose handler receives the stack frame only.
#[derive(Clone, Copy, Debug)]
pub struct InterruptHandlerFunction;

/// Marks a gate whose handler receives the stack frame and an error code.
#[derive(Clone, Copy, Debug)]
pub struct InterruptHandlerFunctionWithErrorCode;

/// Marks the entry of the page-fault handler, which receives the stack frame
/// and the page-fault error code.
#[derive(Clone, Copy, Debug)]
pub struct PageFaultInterruptHandlerFunction;

/// The options word of a gate.
#[derive(Clone, Copy, PartialEq, Eq, Structural, Debug)]
pub struct InterruptDescriptorTableEntryOptions(pub u16);

proof fn lemma_options_bits(options: u16, index: u16, level: u16)
    by (bit_vector)
    ensures
        !options_present(OPTIONS_MINIMAL),
        options_gate_type(OPTIONS_MINIMAL) == 0xE,
        options_dpl(OPTIONS_MINIMAL) == 0,
        options_stack_field(OPTIONS_MINIMAL) == 0,
        fits_u16(1, 1),
        fits_u16(0, 1),
        with_bits_u16(options, 15, 16, 1) == options | OPTIONS_PRESENT,
        with_bits_u16(options, 15, 16, 0) == options & !OPTIONS_PRESENT,
        options_present(options | OPTIONS_PRESENT),
        !options_present(options & !OPTIONS_PRESENT),
        options_stack_field(options | OPTIONS_PRESENT) == options_stack_field(options),
        options_stack_field(options & !OPTIONS_PRESENT) == options_stack_field(options),
        options_gate_type(options | OPTIONS_PRESENT) == options_gate_type(options),
        options_gate_type(options & !OPTIONS_PRESENT) == options_gate_type(options),
        options_dpl(options | OPTIONS_PRESENT) == options_dpl(options),
        options_dpl(options & !OPTIONS_PRESENT) == options_dpl(options),
        index <= 7 ==> fits_u16(index, 3),
        index <= 7 ==> with_bits_u16(options, 0, 3, index) == (options & !7u16) | index,
        index <= 7 ==> options_stack_field((options & !7u16) | index) == index,
        index <= 7 ==> options_present((options & !7u16) | index) == options_present(options),
        index <= 7 ==> options_gate_type((options & !7u16) | index) == options_gate_type(options),
        index <= 7 ==> options_dpl((options & !7u16) | index) == options_dpl(options),
        level <= 3 ==> fits_u16(level, 2),
        level <= 3 ==> with_bits_u16(options, 13, 15, level) == (options & !0x6000u16) | (level
            << 13),
        level <= 3 ==> options_dpl((options & !0x6000u16) | (level << 13)) == level,
        level <= 3 ==> options_present((options & !0x6000u16) | (level << 13)) == options_present(
            options,
        ),
        level <= 3 ==> options_gate_type((options & !0x6000u16) | (level << 13))
            == options_gate_type(options),
        level <= 3 ==> options_stack_field((options & !0x6000u16) | (level << 13))
            == options_stack_field(options),
        options_stack_field(options) <= 7,
        options_dpl(options) <= 3,
{
}

impl InterruptDescriptorTableEntryOptions {
    /// Whether the entry is present.
    pub open spec fn present(self) -> bool {
        options_present(self.0)
    }

    /// The index of the interrupt stack that the entry switches to, or `None`
    /// where it stays on the current stack.
    pub open spec fn stack(self) -> Option<u16> {
        if options_stack_field(self.0) == 0 {
            None
        } else {
            Some((options_stack_field(self.0) - 1) as u16)
        }
    }

    /// The ring from which the entry may be called.
    pub open spec fn level(self) -> PLevel {
        PLevel::of_ordinal(options_dpl(self.0))
    }
}

impl Default for InterruptDescriptorTableEntryOptions {
    /// The options of a gate that is not present: a 64-bit interrupt gate,
    /// callable from ring 0 only, on the current stack.
    fn default() -> (options: Self)
        ensures
            options.0 == OPTIONS_MINIMAL,
            !options.present(),
            options_gate_type(options.0) == 0xE,
            options.level() == PLevel::Ring0,
            options.stack().is_none(),
    {
        proof {
            lemma_options_bits(0, 0, 0);
        }
        Self(OPTIONS_MINIMAL)
    }
}

impl InterruptDescriptorTableEntryOptions {
    /// Sets or clears the present bit and keeps every other bit.
    pub fn set_present(&mut self, present: bool)
        ensures
            final(self).0 == if present {
                old(self).0 | OPTIONS_PRESENT
            } else {
                old(self).0 & !OPTIONS_PRESENT
            },
            final(self).present() == present,
            final(self).stack() == old(self).stack(),
            final(self).level() == old(self).level(),
            options_gate_type(final(self).0) == options_gate_type(old(self).0),
    {
        proof {
            lemma_options_bits(self.0, 0, 0);
        }
        let bit: u16 = if present {
            1
        } else {
            0
        };
        set_bits_u16(&mut self.0, 15, 16, bit);
    }

    /// Makes the entry switch to the interrupt stack with the given index, 0
    /// to 6, of the task state segment. The options hold one more than the
    /// index; every other bit is kept.
    pub fn set_stack_index(&mut self, index: u16)
        requires
            index < 7,
        ensures
            final(self).0 == (old(self).0 & !7u16) | ((index + 1) as u16),
            final(self).stack() == Some(index),
            options_stack_field(final(self).0) == index + 1,
            final(self).present() == old(self).present(),
            final(self).level() == old(self).level(),
            options_gate_type(final(self).0) == options_gate_type(old(self).0),
    {
        proof {
            lemma_options_bits(self.0, (index + 1) as u16, 0);
        }
        set_bits_u16(&mut self.0, 0, 3, index + 1);
    }

    /// Sets the ring from which the entry may be called and keeps every other
    /// bit.
    pub fn set_privilege_level(&mut self, dpl: PLevel)
        ensures
            final(self).0 == (old(self).0 & !0x6000u16) | (dpl.ordinal() << 13),
            final(self).level() == dpl,
            final(self).present() == old(self).present(),
            final(self).stack() == old(self).stack(),
            options_gate_type(final(self).0) == options_gate_type(old(self).0),
    {
        let level: u16 = dpl.as_u16();
        proof {
            lemma_options_bits(self.0, 0, level);
            crate::privileges::lemma_ordinal_round_trip(dpl, 0);
        }
        set_bits_u16(&mut self.0, 13, 15, level);
    }
}

/// A handler address from the three pieces in which a gate holds it.
pub open spec fn joined_address(low: u16, middle: u16, high: u32) -> u64 {
    (low as u64) | ((middle as u64) << 16) | ((high as u64) << 32)
}

proof fn lemma_gate_pieces(address: u64, low: u16, middle: u16, high: u32, selector: u16, options: u16)
    by (bit_vector)
    ensures
        address & 0xFFFF <= 0xFFFF,
        (address >> 16) & 0xFFFF <= 0xFFFF,
        address >> 32 <= 0xFFFF_FFFF,
        joined_address(
            (address & 0xFFFF) as u16,
            ((address >> 16) & 0xFFFF) as u16,
            (address >> 32) as u32,
        ) == address,
        (low as u64) | ((selector as u64) << 16) | ((options as u64) << 32) | ((middle as u64)
            << 48) == gate_words(joined_address(low, middle, high), selector, options).0,
        (high as u64) | (0u64 << 32) == gate_words(joined_address(low, middle, high), selector, options).1,
{
}

/// A gate's two words hold the handler address, the code selector and the
/// options that they were built from, and the options' present bit is bit 47
/// of the low word.
pub proof fn lemma_gate_words_decode(address: u64, selector: u16, options: u16)
    by (bit_vector)
    ensures
        words_address(gate_words(address, selector, options).0, gate_words(address, selector, options).1)
            == address,
        words_selector(gate_words(address, selector, options).0) == selector,
        words_options(gate_words(address, selector, options).0) == options,
        options_present(options) <==> gate_words(address, selector, options).0 & (1u64 << 47) != 0,
        gate_words(address, selector, options).1 >> 32 == 0,
{
}

/// What an entry's image holds is what the entry holds: its handler address,
/// its code selector and its options, so the image shows the entry present
/// exactly where the entry is.
pub proof fn lemma_entry_image<T>(entry: &InterruptDescriptorTableEntry<T>)
    ensures
        words_address(entry.words().0, entry.words().1) == entry.address_value(),
        words_selector(entry.words().0) == entry.selector_value(),
        words_options(entry.words().0) == entry.options_value().0,
        options_present(words_options(entry.words().0)) == entry.present(),
{
    lemma_gate_words_decode(
        entry.address_value(),
        entry.selector_value(),
        entry.options_value().0,
    );
}

/// One gate of the table. The parameter marks the kind of handler that the
/// gate's vector takes.
#[derive(Debug)]
pub struct InterruptDescriptorTableEntry<T> {
    low_ptr: u16,
    gdt_selector: u16,
    options: InterruptDescriptorTableEntryOptions,
    middle_ptr: u16,
    high_ptr: u32,
    reserved: u32,
    phantom: PhantomData<T>,
}

impl<T> InterruptDescriptorTableEntry<T> {
    #[verifier::type_invariant]
    spec fn well_formed(&self) -> bool {
        self.reserved == 0
    }

    /// The address of the entry's handler.
    pub closed spec fn address_value(&self) -> u64 {
        joined_address(self.low_ptr, self.middle_ptr, self.high_ptr)
    }

    /// The raw selector of the code segment in which the handler runs.
    pub closed spec fn selector_value(&self) -> u16 {
        self.gdt_selector
    }

    /// The entry's options.
    pub closed spec fn options_value(&self) -> InterruptDescriptorTableEntryOptions {
        self.options
    }

    /// Whether the entry is present.
    pub open spec fn present(&self) -> bool {
        self.options_value().present()
    }

    /// The entry as the processor reads it: two words, low word first.
    pub open spec fn words(&self) -> (u64, u64) {
        gate_words(self.address_value(), self.selector_value(), self.options_value().0)
    }

    /// A gate that is not present: no handler, the null selector, and the
    /// options of an interrupt gate with the present bit clear.
    pub fn null() -> (entry: Self)
        ensures
            entry.address_value() == 0,
            entry.selector_value() == 0,
            entry.options_value().0 == OPTIONS_MINIMAL,
            !entry.present(),
            entry.words() == (0x0000_0E00_0000_0000u64, 0u64),
    {
        proof {
            lemma_options_bits(0, 0, 0);
            assert(joined_address(0, 0, 0) == 0) by (bit_vector);
            assert(gate_words(0, 0, OPTIONS_MINIMAL) == (0x0000_0E00_0000_0000u64, 0u64))
                by (bit_vector);
        }
        Self {
            low_ptr: 0,
            gdt_selector: 0,
            options: InterruptDescriptorTableEntryOptions::default(),
            middle_ptr: 0,
            high_ptr: 0,
            reserved: 0,
            phantom: PhantomData,
        }
    }

    /// Binds the entry to the handler at `address`, to run in the code segment
    /// of `code_selector`. The options start afresh as those of a present
    /// 64-bit interrupt gate, callable from ring 0 only, on the current
    /// stack.
    pub fn set_handler_address(&mut self, address: u64, code_selector: SegmentSelector)
        ensures
            final(self).address_value() == address,
            final(self).selector_value() == code_selector.0,
            final(self).options_value().0 == OPTIONS_MINIMAL | OPTIONS_PRESENT,
            final(self).present(),
            final(self).options_value().stack().is_none(),
            final(self).options_value().level() == PLevel::Ring0,
            options_gate_type(final(self).options_value().0) == 0xE,
    {
        proof {
            use_type_invariant(&*self);
            lemma_gate_pieces(address, 0, 0, 0, 0, 0);
            lemma_options_bits(OPTIONS_MINIMAL, 0, 0);
        }
        let mut options = InterruptDescriptorTableEntryOptions::default();
        options.set_present(true);
        self.low_ptr = (address & 0xFFFF) as u16;
        self.middle_ptr = ((address >> 16) & 0xFFFF) as u16;
        self.high_ptr = (address >> 32) as u32;
        self.gdt_selector = code_selector.0;
        self.options = options;
    }

    /// Makes the entry switch to the interrupt stack with the given index, 0
    /// to 6, of the task state segment, and keeps everything else.
    pub fn set_stack_index(&mut self, index: u16)
        requires
            index < 7,
        ensures
            final(self).options_value().stack() == Some(index),
            options_stack_field(final(self).options_value().0) == index + 1,
            final(self).options_value().0 == (old(self).options_value().0 & !7u16) | ((index
                + 1) as u16),
            final(self).present() == old(self).present(),
            final(self).options_value().level() == old(self).options_value().level(),
            final(self).address_value() == old(self).address_value(),
            final(self).selector_value() == old(self).selector_value(),
    {
        proof {
            use_type_invariant(&*self);
        }
        let mut options = self.options;
        options.set_stack_index(index);
        self.options = options;
    }

    /// Sets or clears the present bit and keeps everything else.
    pub fn set_present(&mut self, present: bool)
        ensures
            options_after_present(final(self).options_value().0, old(self).options_value().0, present),
            final(self).present() == present,
            final(self).options_value().stack() == old(self).options_value().stack(),
            final(self).options_value().level() == old(self).options_value().level(),
            final(self).address_value() == old(self).address_value(),
            final(self).selector_value() == old(self).selector_value(),
    {
        proof {
            use_type_invariant(&*self);
        }
        let mut options = self.options;
        options.set_present(present);
        self.options = options;
    }

    /// Sets the ring from which the entry may be called and keeps everything
    /// else.
    pub fn set_privilege_level(&mut self, dpl: PLevel)
        ensures
            final(self).options_value().0 == (old(self).options_value().0 & !0x6000u16) | (
            dpl.ordinal() << 13),
            final(self).options_value().level() == dpl,
            final(self).present() == old(self).present(),
            final(self).options_value().stack() == old(self).options_value().stack(),
            final(self).address_value() == old(self).address_value(),
            final(self).selector_value() == old(self).selector_value(),
    {
        proof {
            use_type_invariant(&*self);
        }
        let mut options = self.options;
        options.set_privilege_level(dpl);
        self.options = options;
    }

    /// The address of the entry's handler.
    pub fn handler_address(&self) -> (address: u64)
        ensures
            address == self.address_value(),
    {
        (self.low_ptr as u64) | ((self.middle_ptr as u64) << 16) | ((self.high_ptr as u64) << 32)
    }

    /// The selector of the code segment in which the handler runs.
    pub fn code_selector(&self) -> (selector: SegmentSelector)
        ensures
            selector.0 == self.selector_value(),
    {
        SegmentSelector(self.gdt_selector)
    }

    /// The entry's options.
    pub fn options(&self) -> (options: InterruptDescriptorTableEntryOptions)
        ensures
            options == self.options_value(),
    {
        self.options
    }

    /// Whether the entry is present.
    pub fn is_present(&self) -> (present: bool)
        ensures
            present == self.present(),
    {
        self.options.0 & OPTIONS_PRESENT != 0
    }

    /// The index of the interrupt stack that the entry switches to, or `None`
    /// where it stays on the current stack.
    pub fn stack_index(&self) -> (index: Option<u16>)
        ensures
            index == self.options_value().stack(),
    {
        proof {
            lemma_options_bits(self.options.0, 0, 0);
        }
        let field: u16 = self.options.0 & 7;
        if field == 0 {
            None
        } else {
            Some(field - 1)
        }
    }

    /// The entry as the processor reads it: two words, low word first.
    pub fn encode(&self) -> (words: (u64, u64))
        ensures
            words == self.words(),
    {
        proof {
            use_type_invariant(self);
            lemma_gate_pieces(
                0,
                self.low_ptr,
                self.middle_ptr,
                self.high_ptr,
                self.gdt_selector,
                self.options.0,
            );
        }
        (
            (self.low_ptr as u64) | ((self.gdt_selector as u64) << 16) | ((self.options.0 as u64)
                << 32) | ((self.middle_ptr as u64) << 48),
            (self.high_ptr as u64) | ((self.reserved as u64) << 32),
        )
    }
}

/// What setting the present bit does to an options word.
pub open spec fn options_after_present(after: u16, before: u16, present: bool) -> bool {
    after == if present {
        before | OPTIONS_PRESENT
    } else {
        before & !OPTIONS_PRESENT
    }
}

/// The words of a gate that is not present.
pub open spec fn absent_words() -> (u64, u64) {
    (0x0000_0E00_0000_0000u64, 0u64)
}

/// The table of gates for the processor's exceptions, one gate for each
/// vector that the architecture defines up to 21. Vectors 9 and 15 are
/// reserved and have no gate here; in the table's image they are absent.
#[derive(Debug)]
pub struct InterruptDescriptorTable {
    /// Vector 0: division by zero, or a quotient too large for its destination.
    pub divide_error: InterruptDescriptorTableEntry<InterruptHandlerFunction>,
    /// Vector 1: a debug condition was met.
    pub debug: InterruptDescriptorTableEntry<InterruptHandlerFunction>,
    /// Vector 2: the non-maskable interrupt.
    pub non_maskable_interrupt: InterruptDescriptorTableEntry<InterruptHandlerFunction>,
    /// Vector 3: a breakpoint instruction was executed.
    pub breakpoint: InterruptDescriptorTableEntry<InterruptHandlerFunction>,
    /// Vector 4: an overflow check found the overflow flag set.
    pub overflow: InterruptDescriptorTableEntry<InterruptHandlerFunction>,
    /// Vector 5: a bounds check found an index out of range.
    pub bound_range_exceeded: InterruptDescriptorTableEntry<InterruptHandlerFunction>,
    /// Vector 6: the instruction is invalid or undefined.
    pub invalid_opcode: InterruptDescriptorTableEntry<InterruptHandlerFunction>,
    /// Vector 7: a floating-point instruction found the unit unavailable.
    pub device_not_available: InterruptDescriptorTableEntry<InterruptHandlerFunction>,
    /// Vector 8: a second exception arose while the processor delivered a first
    /// one. The error code is zero.
    pub double_fault: InterruptDescriptorTableEntry<InterruptHandlerFunctionWithErrorCode>,
    /// Vector 10: a task state segment was invalid. The error code holds the selector at fault.
    pub invalid_tss: InterruptDescriptorTableEntry<InterruptHandlerFunctionWithErrorCode>,
    /// Vector 11: a segment or gate that is not present was used. The error code
    /// holds the selector at fault.
    pub segment_not_present: InterruptDescriptorTableEntry<InterruptHandlerFunctionWithErrorCode>,
    /// Vector 12: a stack access broke the stack segment. The error code holds
    /// the selector at fault, or zero.
    pub stack_fault: InterruptDescriptorTableEntry<InterruptHandlerFunctionWithErrorCode>,
    /// Vector 13: a protection rule was broken. The error code holds the selector
    /// or vector at fault, or zero.
    pub general_protection: InterruptDescriptorTableEntry<InterruptHandlerFunctionWithErrorCode>,
    /// Vector 14: an address could not be translated, or the access broke the rights of its page.
    pub page_fault: InterruptDescriptorTableEntry<PageFaultInterruptHandlerFunction>,
    /// Vector 16: the x87 unit found a floating-point error.
    pub x87_fpu_floating_point: InterruptDescriptorTableEntry<InterruptHandlerFunction>,
    /// Vector 17: an unaligned operand was found with alignment checking on.
    pub alignment_check: InterruptDescriptorTableEntry<InterruptHandlerFunctionWithErrorCode>,
    /// Vector 18: the processor found an internal or bus error.
    pub machine_check: InterruptDescriptorTableEntry<InterruptHandlerFunction>,
    /// Vector 19: a SIMD floating-point exception.
    pub simd_floating_point: InterruptDescriptorTableEntry<InterruptHandlerFunction>,
    /// Vector 20: an EPT violation in VMX non-root operation.
    pub virtualization: InterruptDescriptorTableEntry<InterruptHandlerFunction>,
    /// Vector 21: a control transfer broke the control-flow rules.
    pub control_protection: InterruptDescriptorTableEntry<InterruptHandlerFunctionWithErrorCode>,
}

impl InterruptDescriptorTable {
    /// The entry of a vector as the processor reads it. A vector without a
    /// gate of its own reads as a gate that is not present.
    pub open spec fn words_at(&self, vector: int) -> (u64, u64) {
        if vector == 0 {
            self.divide_error.words()
        } else if vector == 1 {
            self.debug.words()
        } else if vector == 2 {
            self.non_maskable_interrupt.words()
        } else if vector == 3 {
            self.breakpoint.words()
        } else if vector == 4 {
            self.overflow.words()
        } else if vector == 5 {
            self.bound_range_exceeded.words()
        } else if vector == 6 {
            self.invalid_opcode.words()
        } else if vector == 7 {
            self.device_not_available.words()
        } else if vector == 8 {
            self.double_fault.words()
        } else if vector == 10 {
            self.invalid_tss.words()
        } else if vector == 11 {
            self.segment_not_present.words()
        } else if vector == 12 {
            self.stack_fault.words()
        } else if vector == 13 {
            self.general_protection.words()
        } else if vector == 14 {
            self.page_fault.words()
        } else if vector == 16 {
            self.x87_fpu_floating_point.words()
        } else if vector == 17 {
            self.alignment_check.words()
        } else if vector == 18 {
            self.machine_check.words()
        } else if vector == 19 {
            self.simd_floating_point.words()
        } else if vector == 20 {
            self.virtualization.words()
        } else if vector == 21 {
            self.control_protection.words()
        } else {
            absent_words()
        }
    }

    /// Whether the entry of a vector is present.
    pub open spec fn present_at(&self, vector: int) -> bool {
        options_present(words_options(self.words_at(vector).0))
    }

    /// Whether no gate of the table is present.
    pub open spec fn all_absent(&self) -> bool {
        forall|vector: int| 0 <= vector < IDT_VECTORS ==> #[trigger] self.words_at(vector) == absent_words()
    }

    /// A table in which no gate is present.
    pub fn new() -> (idt: Self)
        ensures
            idt.all_absent(),
            !idt.divide_error.present(),
            !idt.debug.present(),
            !idt.non_maskable_interrupt.present(),
            !idt.breakpoint.present(),
            !idt.overflow.present(),
            !idt.bound_range_exceeded.present(),
            !idt.invalid_opcode.present(),
            !idt.device_not_available.present(),
            !idt.double_fault.present(),
            !idt.invalid_tss.present(),
            !idt.segment_not_present.present(),
            !idt.stack_fault.present(),
            !idt.general_protection.present(),
            !idt.page_fault.present(),
            !idt.x87_fpu_floating_point.present(),
            !idt.alignment_check.present(),
            !idt.machine_check.present(),
            !idt.simd_floating_point.present(),
            !idt.virtualization.present(),
            !idt.control_protection.present(),
    {
        Self {
            divide_error: InterruptDescriptorTableEntry::null(),
            debug: InterruptDescriptorTableEntry::null(),
            non_maskable_interrupt: InterruptDescriptorTableEntry::null(),
            breakpoint: InterruptDescriptorTableEntry::null(),
            overflow: InterruptDescriptorTableEntry::null(),
            bound_range_exceeded: InterruptDescriptorTableEntry::null(),
            invalid_opcode: InterruptDescriptorTableEntry::null(),
            device_not_available: InterruptDescriptorTableEntry::null(),
            double_fault: InterruptDescriptorTableEntry::null(),
            invalid_tss: InterruptDescriptorTableEntry::null(),
            segment_not_present: InterruptDescriptorTableEntry::null(),
            stack_fault: InterruptDescriptorTableEntry::null(),
            general_protection: InterruptDescriptorTableEntry::null(),
            page_fault: InterruptDescriptorTableEntry::null(),
            x87_fpu_floating_point: InterruptDescriptorTableEntry::null(),
            alignment_check: InterruptDescriptorTableEntry::null(),
            machine_check: InterruptDescriptorTableEntry::null(),
            simd_floating_point: InterruptDescriptorTableEntry::null(),
            virtualization: InterruptDescriptorTableEntry::null(),
            control_protection: InterruptDescriptorTableEntry::null(),
        }
    }

    /// Makes every gate absent again.
    pub fn reset(&mut self)
        ensures
            final(self).all_absent(),
            !final(self).divide_error.present(),
            !final(self).debug.present(),
            !final(self).non_maskable_interrupt.present(),
            !final(self).breakpoint.present(),
            !final(self).overflow.present(),
            !final(self).bound_range_exceeded.present(),
            !final(self).invalid_opcode.present(),
            !final(self).device_not_available.present(),
            !final(self).double_fault.present(),
            !final(self).invalid_tss.present(),
            !final(self).segment_not_present.present(),
            !final(self).stack_fault.present(),
            !final(self).general_protection.present(),
            !final(self).page_fault.present(),
            !final(self).x87_fpu_floating_point.present(),
            !final(self).alignment_check.present(),
            !final(self).machine_check.present(),
            !final(self).simd_floating_point.present(),
            !final(self).virtualization.present(),
            !final(self).control_protection.present(),
    {
        *self = Self::new();
    }

    /// The entry of a vector as the processor reads it: two words, low word
    /// first.
    pub fn gate(&self, vector: u8) -> (words: (u64, u64))
        ensures
            words == self.words_at(vector as int),
    {
        if vector == 0 {
            self.divide_error.encode()
        } else if vector == 1 {
            self.debug.encode()
        } else if vector == 2 {
            self.non_maskable_interrupt.encode()
        } else if vector == 3 {
            self.breakpoint.encode()
        } else if vector == 4 {
            self.overflow.encode()
        } else if vector == 5 {
            self.bound_range_exceeded.encode()
        } else if vector == 6 {
            self.invalid_opcode.encode()
        } else if vector == 7 {
            self.device_not_available.encode()
        } else if vector == 8 {
            self.double_fault.encode()
        } else if vector == 10 {
            self.invalid_tss.encode()
        } else if vector == 11 {
            self.segment_not_present.encode()
        } else if vector == 12 {
            self.stack_fault.encode()
        } else if vector == 13 {
            self.general_protection.encode()
        } else if vector == 14 {
            self.page_fault.encode()
        } else if vector == 16 {
            self.x87_fpu_floating_point.encode()
        } else if vector == 17 {
            self.alignment_check.encode()
        } else if vector == 18 {
            self.machine_check.encode()
        } else if vector == 19 {
            self.simd_floating_point.encode()
        } else if vector == 20 {
            self.virtualization.encode()
        } else if vector == 21 {
            self.control_protection.encode()
        } else {
            (0x0000_0E00_0000_0000u64, 0u64)
        }
    }

    /// The table as the processor reads it: the two words of each vector's
    /// gate, vector 0 first.
    pub fn image(&self) -> (words: Vec<u64>)
        ensures
            words@.len() == 2 * IDT_VECTORS,
            forall|vector: int|
                0 <= vector < IDT_VECTORS ==> words@[2 * vector] == (#[trigger] self.words_at(
                    vector,
                )).0 && words@[2 * vector + 1] == self.words_at(vector).1,
    {
        let mut words: Vec<u64> = Vec::new();
        let mut vector: u8 = 0;
        while vector < 22
            invariant
                vector <= 22,
                words@.len() == 2 * vector,
                forall|v: int|
                    0 <= v < vector ==> words@[2 * v] == (#[trigger] self.words_at(v)).0 && words@[2
                        * v + 1] == self.words_at(v).1,
            decreases 22 - vector,
        {
            let gate = self.gate(vector);
            words.push(gate.0);
            words.push(gate.1);
            vector += 1;
        }
        words
    }

    /// The operand for loading the table register, for a table whose image
    /// lies at `base`: that address, and the offset of the image's last byte.
    pub fn pointer(&self, base: VirtualAddress) -> (pointer: DescriptorTablePointer)
        ensures
            pointer.base == base,
            pointer.limit == IDT_VECTORS * GATE_SIZE - 1,
    {
        DescriptorTablePointer { base, limit: (IDT_VECTORS * GATE_SIZE - 1) as u16 }
    }
}

/// What the processor pushes before it enters a handler.
#[derive(Clone, Copy, PartialEq, Eq, Structural, Debug)]
pub struct InterruptStackFrameValue {
    /// The address at which execution resumes: for a fault, the instruction
    /// that caused it.
    pub instruction_pointer: VirtualAddress,
    /// The code segment selector at the time of the interrupt.
    pub code_segment: u64,
    /// The flags register at the time of the interrupt.
    pub cpu_flags: u64,
    /// The stack pointer at the time of the interrupt.
    pub stack_pointer: VirtualAddress,
    /// The stack segment selector at the time of the interrupt.
    pub stack_segment: u64,
}

/// The pushed state as a handler sees it: it can be read, not changed.
#[derive(Clone, Copy, Debug)]
pub struct InterruptStackFrame {
    value: InterruptStackFrameValue,
}

impl View for InterruptStackFrame {
    type V = InterruptStackFrameValue;

    closed spec fn view(&self) -> InterruptStackFrameValue {
        self.value
    }
}

impl InterruptStackFrame {
    /// The frame that holds the given pushed state.
    pub fn new(value: InterruptStackFrameValue) -> (frame: Self)
        ensures
            frame@ == value,
    {
        Self { value }
    }

    /// The pushed state.
    pub fn value(&self) -> (value: InterruptStackFrameValue)
        ensures
            value == self@,
    {
        self.value
    }

    /// The address at which execution resumes.
    pub fn instruction_pointer(&self) -> (address: VirtualAddress)
        ensures
            address == self@.instruction_pointer,
    {
        self.value.instruction_pointer
    }

    /// The code segment selector at the time of the interrupt.
    pub fn code_segment(&self) -> (selector: u64)
        ensures
            selector == self@.code_segment,
    {
        self.value.code_segment
    }

    /// The flags register at the time of the interrupt.
    pub fn cpu_flags(&self) -> (flags: u64)
        ensures
            flags == self@.cpu_flags,
    {
        self.value.cpu_flags
    }

    /// The stack pointer at the time of the interrupt.
    pub fn stack_pointer(&self) -> (address: VirtualAddress)
        ensures
            address == self@.stack_pointer,
    {
        self.value.stack_pointer
    }

    /// The stack segment selector at the time of the interrupt.
    pub fn stack_segment(&self) -> (selector: u64)
        ensures
            selector == self@.stack_segment,
    {
        self.value.stack_segment
    }
}

} // verus!
