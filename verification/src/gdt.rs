//! The global descriptor table.
use crate::memory::VirtualAddress;
use crate::privileges::PLevel;
use crate::segmentation::{selector_raw, word_dpl, Descriptor, SegmentSelector};
use crate::table::DescriptorTablePointer;
use vstd::prelude::*;

verus! {

/// The number of slots of the table.
pub const GDT_CAPACITY: usize = 8;

/// The words that a descriptor puts into the table, in order.
pub open spec fn descriptor_words(entry: Descriptor) -> Seq<u64> {
    match entry {
        Descriptor::UserSegment(value) => seq![value],
        Descriptor::SystemSegment(low, high) => seq![low, high],
    }
}

/// A table of up to eight descriptor words. Slot 0 holds the null descriptor;
/// descriptors are appended behind it and never removed.
#[derive(Clone, Copy, Debug)]
pub struct GlobalDescriptorTable {
    table: [u64; 8],
    len: usize,
}

impl View for GlobalDescriptorTable {
    type V = Seq<u64>;

    /// The words in use, slot 0 first.
    closed spec fn view(&self) -> Seq<u64> {
        self.table@.subrange(0, self.len as int)
    }
}

impl GlobalDescriptorTable {
    #[verifier::type_invariant]
    spec fn well_formed(&self) -> bool {
        1 <= self.len <= 8 && self.table@[0] == 0
    }

    /// Whether the table has room for `entry`.
    pub open spec fn fits(&self, entry: Descriptor) -> bool {
        self@.len() + entry.slots() <= GDT_CAPACITY
    }

    /// A table that holds the null descriptor and nothing else.
    pub fn new() -> (gdt: Self)
        ensures
            gdt@ == seq![0u64],
    {
        let gdt = Self { table: [0;8], len: 1 };
        assert(gdt@ =~= seq![0u64]);
        gdt
    }

    /// The number of words in use.
    pub fn len(&self) -> (len: usize)
        ensures
            len == self@.len(),
            1 <= len <= GDT_CAPACITY,
            self@[0] == 0,
    {
        proof {
            use_type_invariant(self);
        }
        self.len
    }

    /// The words in use, slot 0 first.
    pub fn as_raw_slice(&self) -> (words: &[u64])
        ensures
            words@ == self@,
            1 <= words@.len() <= GDT_CAPACITY,
            words@[0] == 0,
    {
        proof {
            use_type_invariant(self);
        }
        let all: &[u64] = &self.table;
        vstd::slice::slice_subrange(all, 0, self.len)
    }

    /// The table with exactly the given words. A table holds at least the null
    /// descriptor in slot 0 and at most eight words.
    pub fn u_from_raw_slice(slice: &[u64]) -> (gdt: GlobalDescriptorTable)
        requires
            1 <= slice@.len() <= GDT_CAPACITY,
            slice@[0] == 0,
        ensures
            gdt@ == slice@,
    {
        let len: usize = slice.len();
        let mut table: [u64; 8] = [0;8];
        let mut i: usize = 0;
        while len > i
            invariant
                len == slice@.len(),
                len <= 8,
                i <= len,
                forall|j: int| 0 <= j < i ==> table@[j] == slice@[j],
                i == 0 ==> table@[0] == 0,
            decreases len - i,
        {
            table[i] = slice[i];
            i += 1;
        }
        let gdt = GlobalDescriptorTable { table, len };
        assert(gdt@ =~= slice@);
        gdt
    }

    /// Whether `entry` can still be appended: one free slot for a code or data
    /// segment, two for a system segment.
    pub fn has_room_for(&self, entry: &Descriptor) -> (room: bool)
        ensures
            room == self.fits(*entry),
    {
        proof {
            use_type_invariant(self);
        }
        match entry {
            Descriptor::SystemSegment(_, _) => self.len <= GDT_CAPACITY - 2,
            Descriptor::UserSegment(_) => self.len <= GDT_CAPACITY - 1,
        }
    }

    fn push(&mut self, value: u64) -> (index: usize)
        requires
            old(self)@.len() < GDT_CAPACITY,
        ensures
            index == old(self)@.len(),
            final(self)@ == old(self)@.push(value),
    {
        proof {
            use_type_invariant(&*self);
        }
        let i: usize = self.len;
        self.table[i] = value;
        self.len += 1;
        assert(self@ =~= old(self)@.push(value));
        i
    }

    /// Appends a descriptor and returns the selector that refers to it: the
    /// index of its first word, at the descriptor's own privilege level. A
    /// system segment takes two consecutive words, low word first. The table
    /// must have room for the descriptor.
    pub fn add(&mut self, entry: Descriptor) -> (selector: SegmentSelector)
        requires
            old(self).fits(entry),
        ensures
            final(self)@ == old(self)@ + descriptor_words(entry),
            selector.0 == selector_raw(old(self)@.len() as u16, word_dpl(entry.low())),
            selector.index_value() == old(self)@.len(),
            selector.index_value() < final(self)@.len(),
            selector.level() == PLevel::of_ordinal(word_dpl(entry.low())),
            final(self)@[0] == 0,
    {
        proof {
            use_type_invariant(&*self);
        }
        let i: usize = match entry {
            Descriptor::SystemSegment(low, high) => {
                let i: usize = self.push(low);
                self.push(high);
                i
            },
            Descriptor::UserSegment(value) => self.push(value),
        };
        assert(self@ =~= old(self)@ + descriptor_words(entry));
        SegmentSelector::new(i as u16, entry.dpl())
    }

    /// The operand for loading the table register, for a table that lies at
    /// `base`: that address, and the offset of the last byte in use.
    pub fn as_descriptor_table_pointer(&self, base: VirtualAddress) -> (pointer:
        DescriptorTablePointer)
        ensures
            pointer.base == base,
            pointer.limit == self@.len() * 8 - 1,
    {
        proof {
            use_type_invariant(self);
        }
        DescriptorTablePointer { base, limit: (self.len * 8 - 1) as u16 }
    }
}

} // verus!
