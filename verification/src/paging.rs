//! The error code that the processor pushes for a page fault.
use vstd::prelude::*;

verus! {

/// The causes that a page-fault error code reports, one bit each.
#[derive(Clone, Copy, PartialEq, Eq, Structural, Debug)]
pub struct PageFaultErrorCode {
    bits: u64,
}

impl PageFaultErrorCode {
    /// Set: the page was present and the access broke its protection. Clear:
    /// the page was not present.
    pub const CAUSED_BY_PROTECTION_VIOLATION: u64 = 1;
    /// The access was a write.
    pub const CAUSED_BY_WRITE: u64 = 1 << 1;
    /// The access came from user mode.
    pub const CAUSED_BY_USER_MODE: u64 = 1 << 2;
    /// A reserved bit was set in a paging-structure entry.
    pub const CAUSED_BY_MALFORMED_TABLE: u64 = 1 << 3;
    /// The access was an instruction fetch.
    pub const CAUSED_BY_INSTRUCTION_FETCH: u64 = 1 << 4;
    /// The protection-key rights disallowed the access.
    pub const CAUSED_BY_PROTECTION_KEY: u64 = 1 << 5;
    /// The access was a shadow-stack access.
    pub const CAUSED_BY_SHADOW_STACK: u64 = 1 << 6;
    /// HLAT paging found no translation.
    pub const CAUSED_BY_HLAT_PAGING: u64 = 1 << 7;
    /// The access broke an SGX access-control rule.
    pub const CAUSED_BY_SGX: u64 = 1 << 15;
    /// Every bit that names a cause.
    pub const ALL: u64 = 0x80FF;

    /// The code as a word.
    pub closed spec fn raw(self) -> u64 {
        self.bits
    }

    /// Whether the code reports every cause in `mask`.
    pub open spec fn has(self, mask: u64) -> bool {
        self.raw() & mask == mask
    }

    /// The code that reports no cause.
    pub fn empty() -> (code: Self)
        ensures
            code.raw() == 0,
    {
        Self { bits: 0 }
    }

    /// The code for a pushed word, provided the word sets no bit that names no
    /// cause.
    pub fn from_bits(bits: u64) -> (code: Option<Self>)
        ensures
            bits & !PageFaultErrorCode::ALL == 0 ==> code.is_some() && code.unwrap().raw() == bits,
            bits & !PageFaultErrorCode::ALL != 0 ==> code.is_none(),
    {
        if bits & !PageFaultErrorCode::ALL == 0 {
            Some(Self { bits })
        } else {
            None
        }
    }

    /// The code for a pushed word, without the bits that name no cause.
    pub fn from_bits_truncate(bits: u64) -> (code: Self)
        ensures
            code.raw() == bits & PageFaultErrorCode::ALL,
    {
        Self { bits: bits & PageFaultErrorCode::ALL }
    }

    /// The code as a word.
    pub fn bits(self) -> (bits: u64)
        ensures
            bits == self.raw(),
    {
        self.bits
    }

    /// Whether the code reports every cause in `mask`.
    pub fn contains(self, mask: u64) -> (all: bool)
        ensures
            all == self.has(mask),
    {
        self.bits & mask == mask
    }
}

/// The named causes are exactly the bits of `ALL`, and cutting a word down to
/// them keeps each of them as it was in the word and changes nothing when
/// done twice.
pub proof fn lemma_page_fault_causes(bits: u64, mask: u64)
    by (bit_vector)
    ensures
        PageFaultErrorCode::ALL == PageFaultErrorCode::CAUSED_BY_PROTECTION_VIOLATION
            | PageFaultErrorCode::CAUSED_BY_WRITE | PageFaultErrorCode::CAUSED_BY_USER_MODE
            | PageFaultErrorCode::CAUSED_BY_MALFORMED_TABLE
            | PageFaultErrorCode::CAUSED_BY_INSTRUCTION_FETCH
            | PageFaultErrorCode::CAUSED_BY_PROTECTION_KEY
            | PageFaultErrorCode::CAUSED_BY_SHADOW_STACK
            | PageFaultErrorCode::CAUSED_BY_HLAT_PAGING | PageFaultErrorCode::CAUSED_BY_SGX,
        (bits & PageFaultErrorCode::ALL) & PageFaultErrorCode::ALL == bits
            & PageFaultErrorCode::ALL,
        mask & !PageFaultErrorCode::ALL == 0 ==> (((bits & PageFaultErrorCode::ALL) & mask == mask)
            <==> (bits & mask == mask)),
{
}

} // verus!
