//! What a boot protocol tells the firmware about memory.

use vstd::prelude::*;

verus! {

/// What a region of memory may be used for.
#[derive(Clone, Copy, Debug, PartialEq, Eq, Structural)]
pub enum EntryType {
    Ram,
    Reserved,
    AcpiReclaimable,
    AcpiNvs,
    Bad,
    Persistent,
}

/// One region of the memory map.
#[derive(Clone, Copy, Debug, PartialEq, Eq, Structural)]
pub struct MemoryEntry {
    pub addr: u64,
    pub size: u64,
    pub entry_type: EntryType,
}

} // verus!
