//! Bringing up the segmentation and interrupt tables: what is built, in which
//! order, and what the processor is told at each step.
//!
//! The privileged instructions themselves are the caller's part. This module
//! builds the tables and decides the order of the steps.
use crate::gdt::GlobalDescriptorTable;
use crate::idt::{
    lemma_entry_image, lemma_gate_words_decode, options_present, vector_kind, words_options,
    InterruptDescriptorTable, InterruptDescriptorTableEntry, IDT_VECTORS,
};
use crate::memory::VirtualAddress;
use crate::privileges::PLevel;
use crate::segmentation::{
    tss_high_word, tss_low_word, Descriptor, DescriptorFlags, SegmentSelector, TaskStateSegment,
    TSS_SIZE,
};
use vstd::prelude::*;

verus! {

/// The interrupt stack on which the double-fault handler runs.
pub const DOUBLE_FAULT_IST_INDEX: u16 = 0;

/// The size in bytes of the double-fault stack.
pub const STACK_SIZE: usize = 4096 * 5;

/// The selectors that the segment registers are loaded with once the global
/// table is in place.
#[derive(Clone, Copy, PartialEq, Eq, Structural, Debug)]
pub struct SegmentSelectors {
    pub code_segment_selector: SegmentSelector,
    pub tss_segment_selector: SegmentSelector,
}

/// The task state segment for a double-fault stack that starts at
/// `stack_start` and is `STACK_SIZE` bytes long: the double-fault slot of the
/// interrupt stack table holds the stack's top, which is its end, and every
/// other stack pointer is zero. The stack must end inside the address space.
pub fn build_task_state_segment(stack_start: VirtualAddress) -> (tss: TaskStateSegment)
    requires
        stack_start@ + STACK_SIZE <= u64::MAX,
    ensures
        tss.reserved_clear(),
        tss.iomap_base == TSS_SIZE,
        tss.interrupt_stack_table@[DOUBLE_FAULT_IST_INDEX as int]@ == stack_start@ + STACK_SIZE,
        forall|i: int|
            0 <= i < 7 && i != DOUBLE_FAULT_IST_INDEX ==> (#[trigger] tss.interrupt_stack_table@[i])@
                == 0,
        forall|i: int| 0 <= i < 3 ==> (#[trigger] tss.privilege_stack_table@[i])@ == 0,
{
    let mut tss = TaskStateSegment::new();
    let stack_end: VirtualAddress = stack_start + STACK_SIZE;
    tss.interrupt_stack_table[DOUBLE_FAULT_IST_INDEX as usize] = stack_end;
    tss
}

/// The global table for a kernel whose task state segment lies at
/// `tss_address`: the null descriptor, the ring-0 64-bit code segment in slot
/// 1, and the task state segment's descriptor in slots 2 and 3, with the
/// selectors of the two.
pub fn build_gdt(tss_address: u64) -> (built: (GlobalDescriptorTable, SegmentSelectors))
    ensures
        built.0@ == seq![
            0u64,
            DescriptorFlags::KERNEL_CODE64,
            tss_low_word(tss_address),
            tss_high_word(tss_address),
        ],
        built.1.code_segment_selector.0 == 0x08,
        built.1.tss_segment_selector.0 == 0x10,
        built.1.code_segment_selector.index_value() == 1,
        built.1.tss_segment_selector.index_value() == 2,
        built.1.code_segment_selector.level() == PLevel::Ring0,
        built.1.tss_segment_selector.level() == PLevel::Ring0,
{
    let mut global_descriptor_table = GlobalDescriptorTable::new();
    let code_segment_selector = global_descriptor_table.add(Descriptor::kernel_code_segment());
    let tss_segment_selector = global_descriptor_table.add(Descriptor::tss_segment(tss_address));
    proof {
        crate::segmentation::lemma_tss_descriptor_decodes(tss_address);
        assert(crate::segmentation::selector_raw(1, 0) == 0x08) by (bit_vector);
        assert(crate::segmentation::selector_raw(2, 0) == 0x10) by (bit_vector);
        assert(global_descriptor_table@ =~= seq![
            0u64,
            DescriptorFlags::KERNEL_CODE64,
            tss_low_word(tss_address),
            tss_high_word(tss_address),
        ]);
    }
    (global_descriptor_table, SegmentSelectors { code_segment_selector, tss_segment_selector })
}

/// The addresses of the handlers, one for each vector that has a gate.
#[derive(Clone, Copy, PartialEq, Eq, Structural, Debug)]
pub struct ExceptionHandlers {
    pub divide_error: u64,
    pub debug: u64,
    pub non_maskable_interrupt: u64,
    pub breakpoint: u64,
    pub overflow: u64,
    pub bound_range_exceeded: u64,
    pub invalid_opcode: u64,
    pub device_not_available: u64,
    pub double_fault: u64,
    pub invalid_tss: u64,
    pub segment_not_present: u64,
    pub stack_fault: u64,
    pub general_protection: u64,
    pub page_fault: u64,
    pub x87_fpu_floating_point: u64,
    pub alignment_check: u64,
    pub machine_check: u64,
    pub simd_floating_point: u64,
    pub virtualization: u64,
    pub control_protection: u64,
}

/// Whether a gate is bound: present, with the given handler and code segment,
/// callable from ring 0, and switching to the given interrupt stack or to
/// none.
pub open spec fn bound<T>(
    entry: &InterruptDescriptorTableEntry<T>,
    address: u64,
    code_selector: SegmentSelector,
    stack: Option<u16>,
) -> bool {
    &&& entry.present()
    &&& entry.address_value() == address
    &&& entry.selector_value() == code_selector.0
    &&& entry.options_value().stack() == stack
    &&& entry.options_value().level() == PLevel::Ring0
}

/// Whether every gate of the table is bound to its handler in the given code
/// segment: the double-fault gate on its own interrupt stack, every other
/// gate on the current stack.
pub open spec fn fully_bound(
    idt: &InterruptDescriptorTable,
    handlers: ExceptionHandlers,
    code_selector: SegmentSelector,
) -> bool {
    &&& bound(&idt.divide_error, handlers.divide_error, code_selector, None)
    &&& bound(&idt.debug, handlers.debug, code_selector, None)
    &&& bound(&idt.non_maskable_interrupt, handlers.non_maskable_interrupt, code_selector, None)
    &&& bound(&idt.breakpoint, handlers.breakpoint, code_selector, None)
    &&& bound(&idt.overflow, handlers.overflow, code_selector, None)
    &&& bound(&idt.bound_range_exceeded, handlers.bound_range_exceeded, code_selector, None)
    &&& bound(&idt.invalid_opcode, handlers.invalid_opcode, code_selector, None)
    &&& bound(&idt.device_not_available, handlers.device_not_available, code_selector, None)
    &&& bound(&idt.double_fault, handlers.double_fault, code_selector, Some(DOUBLE_FAULT_IST_INDEX))
    &&& bound(&idt.invalid_tss, handlers.invalid_tss, code_selector, None)
    &&& bound(&idt.segment_not_present, handlers.segment_not_present, code_selector, None)
    &&& bound(&idt.stack_fault, handlers.stack_fault, code_selector, None)
    &&& bound(&idt.general_protection, handlers.general_protection, code_selector, None)
    &&& bound(&idt.page_fault, handlers.page_fault, code_selector, None)
    &&& bound(&idt.x87_fpu_floating_point, handlers.x87_fpu_floating_point, code_selector, None)
    &&& bound(&idt.alignment_check, handlers.alignment_check, code_selector, None)
    &&& bound(&idt.machine_check, handlers.machine_check, code_selector, None)
    &&& bound(&idt.simd_floating_point, handlers.simd_floating_point, code_selector, None)
    &&& bound(&idt.virtualization, handlers.virtualization, code_selector, None)
    &&& bound(&idt.control_protection, handlers.control_protection, code_selector, None)
}

/// In a fully bound table the entry of every vector that the architecture
/// defines is present in the table's image, and the reserved vectors' gates
/// are absent.
pub proof fn lemma_fully_bound_present(
    idt: &InterruptDescriptorTable,
    handlers: ExceptionHandlers,
    code_selector: SegmentSelector,
)
    requires
        fully_bound(idt, handlers, code_selector),
    ensures
        forall|vector: u8|
            vector < IDT_VECTORS ==> (#[trigger] idt.present_at(vector as int) <==> vector_kind(
                vector,
            ).is_some()),
{
    lemma_entry_image(&idt.divide_error);
    lemma_entry_image(&idt.debug);
    lemma_entry_image(&idt.non_maskable_interrupt);
    lemma_entry_image(&idt.breakpoint);
    lemma_entry_image(&idt.overflow);
    lemma_entry_image(&idt.bound_range_exceeded);
    lemma_entry_image(&idt.invalid_opcode);
    lemma_entry_image(&idt.device_not_available);
    lemma_entry_image(&idt.double_fault);
    lemma_entry_image(&idt.invalid_tss);
    lemma_entry_image(&idt.segment_not_present);
    lemma_entry_image(&idt.stack_fault);
    lemma_entry_image(&idt.general_protection);
    lemma_entry_image(&idt.page_fault);
    lemma_entry_image(&idt.x87_fpu_floating_point);
    lemma_entry_image(&idt.alignment_check);
    lemma_entry_image(&idt.machine_check);
    lemma_entry_image(&idt.simd_floating_point);
    lemma_entry_image(&idt.virtualization);
    lemma_entry_image(&idt.control_protection);
    lemma_gate_words_decode(0, 0, crate::idt::OPTIONS_MINIMAL);
    assert(crate::idt::gate_words(0, 0, crate::idt::OPTIONS_MINIMAL) == crate::idt::absent_words())
        by (bit_vector);
    assert(!options_present(crate::idt::OPTIONS_MINIMAL)) by (bit_vector);
    assert forall|vector: u8| vector < IDT_VECTORS implies (#[trigger] idt.present_at(
        vector as int,
    ) <==> vector_kind(vector).is_some()) by {
        let words = idt.words_at(vector as int);
        assert(options_present(words_options(words.0)) == idt.present_at(vector as int));
    }
}

/// The table with the entry of every defined vector bound to its handler, to
/// run in the code segment of `code_selector`. The double-fault gate switches
/// to its own interrupt stack, so that its handler runs even where the
/// current stack cannot be used.
pub fn build_idt(handlers: &ExceptionHandlers, code_selector: SegmentSelector) -> (idt:
    InterruptDescriptorTable)
    ensures
        fully_bound(&idt, *handlers, code_selector),
        idt.double_fault.options_value().stack() == Some(DOUBLE_FAULT_IST_INDEX),
{
    let mut idt = InterruptDescriptorTable::new();
    idt.divide_error.set_handler_address(handlers.divide_error, code_selector);
    idt.debug.set_handler_address(handlers.debug, code_selector);
    idt.non_maskable_interrupt.set_handler_address(handlers.non_maskable_interrupt, code_selector);
    idt.breakpoint.set_handler_address(handlers.breakpoint, code_selector);
    idt.overflow.set_handler_address(handlers.overflow, code_selector);
    idt.bound_range_exceeded.set_handler_address(handlers.bound_range_exceeded, code_selector);
    idt.invalid_opcode.set_handler_address(handlers.invalid_opcode, code_selector);
    idt.device_not_available.set_handler_address(handlers.device_not_available, code_selector);
    idt.double_fault.set_handler_address(handlers.double_fault, code_selector);
    idt.invalid_tss.set_handler_address(handlers.invalid_tss, code_selector);
    idt.segment_not_present.set_handler_address(handlers.segment_not_present, code_selector);
    idt.stack_fault.set_handler_address(handlers.stack_fault, code_selector);
    idt.general_protection.set_handler_address(handlers.general_protection, code_selector);
    idt.page_fault.set_handler_address(handlers.page_fault, code_selector);
    idt.x87_fpu_floating_point.set_handler_address(handlers.x87_fpu_floating_point, code_selector);
    idt.alignment_check.set_handler_address(handlers.alignment_check, code_selector);
    idt.machine_check.set_handler_address(handlers.machine_check, code_selector);
    idt.simd_floating_point.set_handler_address(handlers.simd_floating_point, code_selector);
    idt.virtualization.set_handler_address(handlers.virtualization, code_selector);
    idt.control_protection.set_handler_address(handlers.control_protection, code_selector);
    idt.double_fault.set_stack_index(DOUBLE_FAULT_IST_INDEX);
    idt
}

/// Binds the double-fault gate: to the handler at `address`, in the code
/// segment of `code_selector`, on the double-fault interrupt stack. The entry
/// becomes present; no other gate changes.
pub fn bind_double_fault(
    idt: &mut InterruptDescriptorTable,
    address: u64,
    code_selector: SegmentSelector,
)
    ensures
        bound(&final(idt).double_fault, address, code_selector, Some(DOUBLE_FAULT_IST_INDEX)),
        crate::idt::options_stack_field(final(idt).double_fault.options_value().0)
            == DOUBLE_FAULT_IST_INDEX + 1,
        forall|vector: int| vector != 8 ==> final(idt).words_at(vector) == old(idt).words_at(vector),
{
    idt.double_fault.set_handler_address(address, code_selector);
    idt.double_fault.set_stack_index(DOUBLE_FAULT_IST_INDEX);
}

/// How far the bring-up has come.
#[derive(Clone, Copy, PartialEq, Eq, Structural, Debug)]
pub enum InitState {
    /// Nothing has been built.
    Uninitialized,
    /// The global table and the task state segment are built.
    GdtBuilt,
    /// The processor's table register refers to the global table.
    GdtLoaded,
    /// The code segment register and the task register hold the new selectors.
    SegmentsReloaded,
    /// The interrupt table is built and every defined vector is bound.
    IdtBuilt,
    /// The processor's interrupt table register refers to the table.
    IdtLoaded,
    /// The boundary is in place.
    Ready,
}

/// What the caller does to leave a state.
#[derive(Clone, Copy, PartialEq, Eq, Structural, Debug)]
pub enum InitAction {
    /// Build the task state segment and the global table.
    BuildGdt,
    /// Load the global table register.
    LoadGdt,
    /// Reload the code segment register, then load the task register.
    ReloadSegments,
    /// Build the interrupt table.
    BuildIdt,
    /// Load the interrupt table register.
    LoadIdt,
    /// Nothing is left to install: report that the boundary is in place.
    Complete,
}

impl InitState {
    /// The number of steps that lie behind the state.
    pub open spec fn rank(self) -> nat {
        match self {
            InitState::Uninitialized => 0,
            InitState::GdtBuilt => 1,
            InitState::GdtLoaded => 2,
            InitState::SegmentsReloaded => 3,
            InitState::IdtBuilt => 4,
            InitState::IdtLoaded => 5,
            InitState::Ready => 6,
        }
    }

    /// The state that follows, or `None` after the last.
    pub open spec fn successor(self) -> Option<InitState> {
        match self {
            InitState::Uninitialized => Some(InitState::GdtBuilt),
            InitState::GdtBuilt => Some(InitState::GdtLoaded),
            InitState::GdtLoaded => Some(InitState::SegmentsReloaded),
            InitState::SegmentsReloaded => Some(InitState::IdtBuilt),
            InitState::IdtBuilt => Some(InitState::IdtLoaded),
            InitState::IdtLoaded => Some(InitState::Ready),
            InitState::Ready => None,
        }
    }

    /// The action that leads out of the state, or `None` in the last.
    pub open spec fn action(self) -> Option<InitAction> {
        match self {
            InitState::Uninitialized => Some(InitAction::BuildGdt),
            InitState::GdtBuilt => Some(InitAction::LoadGdt),
            InitState::GdtLoaded => Some(InitAction::ReloadSegments),
            InitState::SegmentsReloaded => Some(InitAction::BuildIdt),
            InitState::IdtBuilt => Some(InitAction::LoadIdt),
            InitState::IdtLoaded => Some(InitAction::Complete),
            InitState::Ready => None,
        }
    }

    /// The state in which nothing has been built.
    pub fn start() -> (state: InitState)
        ensures
            state == InitState::Uninitialized,
    {
        InitState::Uninitialized
    }

    /// Whether the boundary is in place.
    pub fn is_ready(self) -> (ready: bool)
        ensures
            ready == (self == InitState::Ready),
            ready == self.action().is_none(),
    {
        match self {
            InitState::Ready => true,
            _ => false,
        }
    }

    /// What the caller has to do next, or `None` once the boundary is in
    /// place.
    pub fn pending_action(self) -> (action: Option<InitAction>)
        ensures
            action == self.action(),
    {
        match self {
            InitState::Uninitialized => Some(InitAction::BuildGdt),
            InitState::GdtBuilt => Some(InitAction::LoadGdt),
            InitState::GdtLoaded => Some(InitAction::ReloadSegments),
            InitState::SegmentsReloaded => Some(InitAction::BuildIdt),
            InitState::IdtBuilt => Some(InitAction::LoadIdt),
            InitState::IdtLoaded => Some(InitAction::Complete),
            InitState::Ready => None,
        }
    }

    /// The state after the pending action was tried. Where it succeeded the
    /// bring-up goes one step on. Where it failed, or where nothing was
    /// pending, there is no next state: the caller halts the processor.
    pub fn advance(self, succeeded: bool) -> (next: Option<InitState>)
        ensures
            next == if succeeded {
                self.successor()
            } else {
                None
            },
    {
        if !succeeded {
            return None;
        }
        match self {
            InitState::Uninitialized => Some(InitState::GdtBuilt),
            InitState::GdtBuilt => Some(InitState::GdtLoaded),
            InitState::GdtLoaded => Some(InitState::SegmentsReloaded),
            InitState::SegmentsReloaded => Some(InitState::IdtBuilt),
            InitState::IdtBuilt => Some(InitState::IdtLoaded),
            InitState::IdtLoaded => Some(InitState::Ready),
            InitState::Ready => None,
        }
    }
}

/// The state reached from `state` by `steps` successful steps, or `None`
/// where the bring-up ends before that.
pub open spec fn after(state: InitState, steps: nat) -> Option<InitState>
    decreases steps,
{
    if steps == 0 {
        Some(state)
    } else {
        match state.successor() {
            Some(next) => after(next, (steps - 1) as nat),
            None => None,
        }
    }
}

/// The bring-up only goes forward: each step raises the rank by one, a state
/// has a successor exactly where an action is pending, and only the last
/// state has neither.
pub proof fn lemma_one_way(state: InitState)
    ensures
        state.successor().is_some() <==> state.action().is_some(),
        state.successor().is_some() <==> state != InitState::Ready,
        state.successor().is_some() ==> state.successor().unwrap().rank() == state.rank() + 1,
        state.rank() <= 6,
        state.rank() == 6 <==> state == InitState::Ready,
{
}

/// A state is reached from another by exactly as many steps as their ranks
/// differ, so no state is reached twice and none from a later one; the last
/// state is reached from the first by six steps.
pub proof fn lemma_steps(state: InitState, steps: nat)
    ensures
        after(state, steps).is_some() <==> state.rank() + steps <= 6,
        after(state, steps).is_some() ==> after(state, steps).unwrap().rank() == state.rank()
            + steps,
        after(InitState::Uninitialized, 6) == Some(InitState::Ready),
    decreases steps,
{
    reveal_with_fuel(after, 8);
    if steps > 0 {
        match state.successor() {
            Some(next) => {
                lemma_steps(next, (steps - 1) as nat);
            },
            None => {},
        }
    }
}

} // verus!
