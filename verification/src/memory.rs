//! Virtual addresses.
use vstd::prelude::*;

verus! {

/// A 64-bit virtual address.
#[derive(Clone, Copy, PartialEq, Eq, Structural, PartialOrd, Ord, Debug, Hash)]
pub struct VirtualAddress(pub u64);

impl View for VirtualAddress {
    type V = u64;

    open spec fn view(&self) -> u64 {
        self.0
    }
}

impl VirtualAddress {
    /// The address with the given numeric value.
    pub fn new(value: u64) -> (address: Self)
        ensures
            address@ == value,
    {
        Self(value)
    }

    /// The numeric value of the address.
    pub fn as_u64(self) -> (value: u64)
        ensures
            value == self@,
    {
        self.0
    }

    /// The address `offset` bytes above this one, or `None` where that lies
    /// beyond the end of the address space.
    pub fn checked_offset(self, offset: u64) -> (moved: Option<Self>)
        ensures
            self@ + offset <= u64::MAX ==> moved == Some(VirtualAddress((self@ + offset) as u64)),
            self@ + offset > u64::MAX ==> moved.is_none(),
    {
        if offset <= u64::MAX - self.0 {
            Some(self + offset)
        } else {
            None
        }
    }
}

impl Default for VirtualAddress {
    /// The address zero.
    fn default() -> (address: Self)
        ensures
            address@ == 0,
    {
        Self(0)
    }
}

impl core::ops::Add<u64> for VirtualAddress {
    type Output = VirtualAddress;

    /// The address `rhs` bytes above this one. The sum must lie inside the
    /// address space.
    fn add(self, rhs: u64) -> (sum: VirtualAddress) {
        VirtualAddress::new(self.0 + rhs)
    }
}

impl vstd::std_specs::ops::AddSpecImpl<u64> for VirtualAddress {
    open spec fn obeys_add_spec() -> bool {
        true
    }

    open spec fn add_req(self, rhs: u64) -> bool {
        self.0 + rhs <= u64::MAX
    }

    open spec fn add_spec(self, rhs: u64) -> VirtualAddress {
        VirtualAddress((self.0 + rhs) as u64)
    }
}

impl core::ops::Add<usize> for VirtualAddress {
    type Output = VirtualAddress;

    /// The address `rhs` bytes above this one. The sum must lie inside the
    /// address space.
    fn add(self, rhs: usize) -> (sum: VirtualAddress) {
        VirtualAddress::new(self.0 + rhs as u64)
    }
}

impl vstd::std_specs::ops::AddSpecImpl<usize> for VirtualAddress {
    open spec fn obeys_add_spec() -> bool {
        true
    }

    open spec fn add_req(self, rhs: usize) -> bool {
        self.0 + rhs <= u64::MAX
    }

    open spec fn add_spec(self, rhs: usize) -> VirtualAddress {
        VirtualAddress((self.0 + rhs) as u64)
    }
}

} // verus!
