//! The regions of physical memory that the firmware knows of.

use std::ops::Range;
use vstd::prelude::*;

verus! {

/// What a region of memory holds.
#[derive(Clone, Copy, Debug, PartialEq, Eq, Structural)]
pub enum MemoryAttribute {
    Code,
    Data,
    Unusable,
    Mmio,
}

/// A named region of memory.  It starts and ends on a page boundary.
#[derive(Debug)]
pub struct MemoryDescriptor {
    pub name: &'static str,
    pub range: Range<usize>,
    pub attribute: MemoryAttribute,
}

impl MemoryDescriptor {
    pub const PAGE_SIZE: usize = 0x1000;

    /// Address of the first byte of the region.
    pub fn range_start(&self) -> (addr: usize)
        requires
            self.range.start % Self::PAGE_SIZE == 0,
        ensures
            addr == self.range.start,
    {
        self.range.start
    }

    /// Address of the first byte behind the region.
    pub fn range_end(&self) -> (addr: usize)
        requires
            self.range.end % Self::PAGE_SIZE == 0,
        ensures
            addr == self.range.end,
    {
        self.range.end
    }

    /// Number of pages that the region spans.
    pub fn page_count(&self) -> (pages: usize)
        requires
            self.range.start % Self::PAGE_SIZE == 0,
            self.range.end % Self::PAGE_SIZE == 0,
            self.range.start <= self.range.end,
        ensures
            pages * Self::PAGE_SIZE == self.range.end - self.range.start,
            pages == (self.range.end - self.range.start) / (Self::PAGE_SIZE as int),
    {
        (self.range_end() - self.range_start()) / Self::PAGE_SIZE
    }
}

/// The regions of a machine.
pub type MemoryLayout<const NUM_MEM_DESCS: usize> = [MemoryDescriptor; NUM_MEM_DESCS];

} // verus!
