//! Model-specific registers.
use vstd::prelude::*;

verus! {

/// The number of a model-specific register.
#[derive(Clone, Copy, PartialEq, Eq, Structural, Debug)]
pub struct Msr(pub u32);

/// The 64-bit value that the register-pair instructions exchange, from its
/// upper and lower halves.
pub open spec fn joined(high: u32, low: u32) -> u64 {
    ((high as u64) << 32) | (low as u64)
}

impl Msr {
    /// The register with the given number.
    pub fn new(reg: u32) -> (msr: Msr)
        ensures
            msr.0 == reg,
    {
        Msr(reg)
    }

    /// The register's number.
    pub fn number(&self) -> (reg: u32)
        ensures
            reg == self.0,
    {
        self.0
    }

    /// The value of a register from the two halves that a read delivers, the
    /// upper half first.
    pub fn join(high: u32, low: u32) -> (value: u64)
        ensures
            value == joined(high, low),
            value >> 32 == high,
            value & 0xFFFF_FFFF == low,
    {
        proof {
            lemma_halves(high, low, 0);
        }
        ((high as u64) << 32) | (low as u64)
    }

    /// The two halves that a write takes, the upper half first.
    pub fn split(value: u64) -> (halves: (u32, u32))
        ensures
            halves.0 == value >> 32,
            halves.1 == value & 0xFFFF_FFFF,
            joined(halves.0, halves.1) == value,
    {
        proof {
            lemma_halves(0, 0, value);
        }
        let high: u32 = (value >> 32) as u32;
        let low: u32 = (value & 0xFFFF_FFFF) as u32;
        (high, low)
    }
}

proof fn lemma_halves(high: u32, low: u32, value: u64)
    by (bit_vector)
    ensures
        joined(high, low) >> 32 == high,
        joined(high, low) & 0xFFFF_FFFF == low,
        value >> 32 <= 0xFFFF_FFFF,
        value & 0xFFFF_FFFF <= 0xFFFF_FFFF,
        joined((value >> 32) as u32, (value & 0xFFFF_FFFF) as u32) == value,
{
}

/// Splitting a register value into halves and joining them again gives the
/// value back, and the halves of a joined value are the halves it was joined
/// from.
pub proof fn lemma_join_split(high: u32, low: u32, value: u64)
    ensures
        joined((value >> 32) as u32, (value & 0xFFFF_FFFF) as u32) == value,
        (joined(high, low) >> 32) as u32 == high,
        (joined(high, low) & 0xFFFF_FFFF) as u32 == low,
{
    lemma_halves(high, low, value);
}

} // verus!
