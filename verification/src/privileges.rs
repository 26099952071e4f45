//! The four hardware protection rings.
use vstd::prelude::*;

verus! {

/// A protection ring. Ring 0 is the most privileged, ring 3 the least.
#[derive(Copy, Clone, PartialEq, Eq, Structural, PartialOrd, Ord, Debug, Hash)]
pub enum PLevel {
    Ring0,
    Ring1,
    Ring2,
    Ring3,
}

impl PLevel {
    /// The ring's number, 0 to 3.
    pub open spec fn ordinal(self) -> u16 {
        match self {
            PLevel::Ring0 => 0,
            PLevel::Ring1 => 1,
            PLevel::Ring2 => 2,
            PLevel::Ring3 => 3,
        }
    }

    /// The ring with the given number. Only 0 to 3 name a ring.
    pub open spec fn of_ordinal(value: u16) -> PLevel
        recommends
            value <= 3,
    {
        if value == 0 {
            PLevel::Ring0
        } else if value == 1 {
            PLevel::Ring1
        } else if value == 2 {
            PLevel::Ring2
        } else {
            PLevel::Ring3
        }
    }

    /// The ring numbered `value`. A number above 3 names no ring and is not
    /// accepted.
    pub fn from_u16(value: u16) -> (level: PLevel)
        requires
            value <= 3,
        ensures
            level.ordinal() == value,
            level == PLevel::of_ordinal(value),
    {
        if value == 0 {
            PLevel::Ring0
        } else if value == 1 {
            PLevel::Ring1
        } else if value == 2 {
            PLevel::Ring2
        } else {
            PLevel::Ring3
        }
    }

    /// The ring numbered `value`, or `None` where `value` names no ring.
    pub fn try_from_u16(value: u16) -> (level: Option<PLevel>)
        ensures
            value <= 3 ==> level == Some(PLevel::of_ordinal(value)),
            value > 3 ==> level.is_none(),
    {
        if value <= 3 {
            Some(PLevel::from_u16(value))
        } else {
            None
        }
    }

    /// The ring's number as the hardware encodes it.
    pub fn as_u16(self) -> (value: u16)
        ensures
            value == self.ordinal(),
            value <= 3,
    {
        match self {
            PLevel::Ring0 => 0,
            PLevel::Ring1 => 1,
            PLevel::Ring2 => 2,
            PLevel::Ring3 => 3,
        }
    }
}

/// Numbering the rings loses nothing: the ring of a ring's number is that ring,
/// and the number of the ring numbered `value` is `value`.
pub proof fn lemma_ordinal_round_trip(level: PLevel, value: u16)
    ensures
        PLevel::of_ordinal(level.ordinal()) == level,
        level.ordinal() <= 3,
        value <= 3 ==> PLevel::of_ordinal(value).ordinal() == value,
{
}

} // verus!
