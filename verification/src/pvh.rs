//! The PVH boot protocol.

use crate::bootinfo::{EntryType, MemoryEntry};
use vstd::prelude::*;
use vstd::std_specs::convert::FromSpecImpl;

verus! {

pub const XEN_HVM_MEMMAP_TYPE_RAM: u32 = 1;

pub const XEN_HVM_MEMMAP_TYPE_RESERVED: u32 = 2;

pub const XEN_HVM_MEMMAP_TYPE_ACPI: u32 = 3;

pub const XEN_HVM_MEMMAP_TYPE_NVS: u32 = 4;

pub const XEN_HVM_MEMMAP_TYPE_UNUSABLE: u32 = 5;

pub const XEN_HVM_MEMMAP_TYPE_DISABLED: u32 = 6;

pub const XEN_HVM_MEMMAP_TYPE_PMEM: u32 = 7;

/// What the boot loader hands over at the entry point.
#[derive(Clone, Copy, Debug, PartialEq, Eq)]
pub struct StartInfo {
    pub magic: [u8; 4],
    pub version: u32,
    pub flags: u32,
    pub nr_modules: u32,
    pub modlist_paddr: u64,
    pub cmdline_paddr: u64,
    pub rsdp_paddr: u64,
    pub memmap_paddr: u64,
    pub memmap_entries: u32,
    pub _pad: u32,
}

/// One entry of the memory map that [`StartInfo`] points to.
#[derive(Clone, Copy, Debug, PartialEq, Eq, Structural)]
pub struct MemMapEntry {
    pub addr: u64,
    pub size: u64,
    pub entry_type: u32,
    pub _pad: u32,
}

/// The use of a region whose entry in the memory map has the given type.
/// A type that the protocol does not define counts as reserved.
pub open spec fn entry_type_spec(entry_type: u32) -> EntryType {
    if entry_type == XEN_HVM_MEMMAP_TYPE_RAM {
        EntryType::Ram
    } else if entry_type == XEN_HVM_MEMMAP_TYPE_RESERVED {
        EntryType::Reserved
    } else if entry_type == XEN_HVM_MEMMAP_TYPE_ACPI {
        EntryType::AcpiReclaimable
    } else if entry_type == XEN_HVM_MEMMAP_TYPE_NVS {
        EntryType::AcpiNvs
    } else if entry_type == XEN_HVM_MEMMAP_TYPE_UNUSABLE {
        EntryType::Bad
    } else if entry_type == XEN_HVM_MEMMAP_TYPE_DISABLED {
        EntryType::Bad
    } else if entry_type == XEN_HVM_MEMMAP_TYPE_PMEM {
        EntryType::Persistent
    } else {
        EntryType::Reserved
    }
}

impl From<MemMapEntry> for MemoryEntry {
    fn from(value: MemMapEntry) -> (entry: Self) {
        Self {
            addr: value.addr,
            size: value.size,
            entry_type: match value.entry_type {
                XEN_HVM_MEMMAP_TYPE_RAM => EntryType::Ram,
                XEN_HVM_MEMMAP_TYPE_RESERVED => EntryType::Reserved,
                XEN_HVM_MEMMAP_TYPE_ACPI => EntryType::AcpiReclaimable,
                XEN_HVM_MEMMAP_TYPE_NVS => EntryType::AcpiNvs,
                XEN_HVM_MEMMAP_TYPE_UNUSABLE => EntryType::Bad,
                XEN_HVM_MEMMAP_TYPE_DISABLED => EntryType::Bad,
                XEN_HVM_MEMMAP_TYPE_PMEM => EntryType::Persistent,
                _ => EntryType::Reserved,  // Unknown
            },
        }
    }
}

impl FromSpecImpl<MemMapEntry> for MemoryEntry {
    open spec fn obeys_from_spec() -> bool {
        true
    }

    open spec fn from_spec(value: MemMapEntry) -> MemoryEntry {
        MemoryEntry {
            addr: value.addr,
            size: value.size,
            entry_type: entry_type_spec(value.entry_type),
        }
    }
}

impl StartInfo {
    /// Name of the boot protocol.
    pub fn name(&self) -> (name: &'static str)
        ensures
            name@ == "PVH Boot Protocol"@,
    {
        "PVH Boot Protocol"
    }

    /// Address of the ACPI root pointer.
    pub fn rsdp_addr(&self) -> (addr: Option<u64>)
        ensures
            addr == Some(self.rsdp_paddr),
    {
        Some(self.rsdp_paddr)
    }

    /// Number of entries of the memory map.  A version 0 of the protocol
    /// has no memory map.
    pub fn num_entries(&self) -> (count: usize)
        ensures
            count == if self.version < 1 || self.memmap_paddr == 0 {
                0
            } else {
                self.memmap_entries as int
            },
    {
        // memmap_paddr and memmap_entries only exist in version 1 or later
        if self.version < 1 || self.memmap_paddr == 0 {
            return 0;
        }
        self.memmap_entries as usize
    }
}

} // verus!
