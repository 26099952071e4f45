//! The operand of the instructions that load a descriptor-table register.
use crate::memory::VirtualAddress;
use vstd::prelude::*;

verus! {

/// Where a descriptor table lies and how long it is: the offset of its last
/// byte, then its first byte's address.
#[derive(Clone, Copy, PartialEq, Eq, Structural, Debug)]
pub struct DescriptorTablePointer {
    pub limit: u16,
    pub base: VirtualAddress,
}

} // verus!
