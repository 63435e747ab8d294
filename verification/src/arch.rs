//! What depends on the processor architecture.

use crate::arch::x86_64::mm::{
    map_frame, mapped, mapping_flags, page_table_entries, HUGE_PAGE, PAGE_SIZE,
};
use vstd::arithmetic::div_mod::lemma_mod_multiples_basic;
use vstd::prelude::*;

pub mod x86_64;

verus! {

/// Number of 4 KiB frames that a physical address of 52 bits can name.
pub const FRAME_LIMIT: u64 = 0x100_0000_0000;

/// A request to map one 4 KiB page frame.
#[derive(Clone, Copy, Debug, PartialEq, Eq, Structural)]
pub struct FrameMapping {
    /// Number of the frame: its physical address divided by the frame size.
    pub pfn: u64,
    /// Whether the mapping carries the memory-encryption attribute.
    pub encrypted: bool,
}

/// Maps the 4 KiB frame number `pfn` through `l1`, with the bits of
/// `encrypt_flag` in the entry where the mapping is to be encrypted.
/// Returns the virtual address of the frame, or `None` where the table has
/// no entry left.
pub fn map_4k_frame(
    l1: &mut ::x86_64::structures::paging::PageTable,
    encrypt_flag: u64,
    pfn: u64,
    encrypted: bool,
) -> (addr: Option<u64>)
    requires
        pfn < FRAME_LIMIT,
        encrypted ==> encrypt_flag & HUGE_PAGE == 0,
    ensures
        mapped(
            page_table_entries(*old(l1)),
            page_table_entries(*final(l1)),
            (pfn * PAGE_SIZE) as u64,
            mapping_flags(encrypt_flag, encrypted),
            addr,
        ),
{
    proof {
        lemma_mod_multiples_basic(pfn as int, PAGE_SIZE as int);
    }
    map_frame(l1, encrypt_flag, pfn * PAGE_SIZE, encrypted)
}

} // verus!
