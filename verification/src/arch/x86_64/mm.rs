//! The firmware's page tables.
//!
//! Memory layout
//!
//! 0M-2M : Identity
//! 2M-4M : L1 mappings
//! 4M-1G : Identity
//!
//! The identity mappings are 2 MiB pages.  The window in between is mapped
//! by one table of 512 entries, each of which can point a 4 KiB page
//! anywhere: an entry of that table is handed out for every frame that has
//! to be mapped on its own.

use vstd::arithmetic::div_mod::lemma_mod_multiples_basic;
use vstd::prelude::*;

verus! {

/// Number of entries of a page table.
pub const ENTRY_COUNT: usize = 512;

/// Size of the pages that the last-level table maps.
pub const PAGE_SIZE: u64 = 0x1000;

/// Size of the pages that the table above it maps.
pub const HUGE_PAGE_SIZE: u64 = 0x20_0000;

/// Virtual address that the first entry of the table maps.
pub const WINDOW_START: u64 = 0x20_0000;

/// First physical address that is out of the processor's reach.
pub const PHYS_LIMIT: u64 = 0x10_0000_0000_0000;

/// Flag of an entry that maps something.
pub const PRESENT: u64 = 1;

/// Flag of an entry whose page may be written.
pub const WRITABLE: u64 = 1 << 1;

/// Flag of an entry that maps a huge page.  The last-level table has none.
pub const HUGE_PAGE: u64 = 1 << 7;

/// `x86_64::structures::paging::PageTable`: one page table, as the
/// processor walks it.  Nothing is seen of it here but through
/// [`page_table_entries`].
#[verifier::external_type_specification]
#[verifier::external_body]
pub struct ExPageTable(::x86_64::structures::paging::PageTable);

/// The 512 entries of a page table, each as the 64 bits that the processor
/// reads.
pub uninterp spec fn page_table_entries(table: ::x86_64::structures::paging::PageTable) -> Seq<
    u64,
>;

/// Whether `after` is a table of 512 entries that has `value` as its entry
/// `index` and the entries of `before` everywhere else.
pub open spec fn entry_set(before: Seq<u64>, after: Seq<u64>, index: int, value: u64) -> bool {
    &&& after.len() == ENTRY_COUNT
    &&& after[index] == value
    &&& forall|j: int| 0 <= j < ENTRY_COUNT && j != index ==> after[j] == before[j]
}

/// `PageTable`'s `Index<usize>` followed by `PageTableEntry::is_unused`: an
/// entry is unused when all its bits are zero.  An index of 512 or more is
/// left out, since indexing panics there.
#[verifier::external_body]
fn entry_is_unused(table: &::x86_64::structures::paging::PageTable, index: usize) -> (unused:
    bool)
    requires
        index < ENTRY_COUNT,
    ensures
        unused == (page_table_entries(*table)[index as int] == 0),
{
    table[index].is_unused()
}

/// `PageTable`'s `IndexMut<usize>` followed by `PageTableEntry::set_frame`,
/// on a frame made by `PhysFrame::from_start_address` of `PhysAddr::new`
/// and on flags made by `PageTableFlags::from_bits_retain`: the entry
/// becomes the frame's address with the flags' bits set in it, and no other
/// entry changes; the table has its 512 entries.  Left out are the inputs
/// on which one of these panics: an index of 512 or more, an address with a
/// bit from 52 on set, an address that is not a multiple of 4096, flags
/// with the huge-page bit.
#[verifier::external_body]
fn set_entry_frame(
    table: &mut ::x86_64::structures::paging::PageTable,
    index: usize,
    frame: u64,
    flags: u64,
)
    requires
        index < ENTRY_COUNT,
        frame < PHYS_LIMIT,
        frame % PAGE_SIZE == 0,
        flags & HUGE_PAGE == 0,
    ensures
        entry_set(
            page_table_entries(*old(table)),
            page_table_entries(*final(table)),
            index as int,
            frame | flags,
        ),
{
    let addr = ::x86_64::PhysAddr::new(frame);
    let frame = ::x86_64::structures::paging::PhysFrame::from_start_address(addr).unwrap();
    let flags = ::x86_64::structures::paging::PageTableFlags::from_bits_retain(flags);
    table[index].set_frame(frame, flags);
}

/// `PageTable`'s `IndexMut<usize>` followed by `PageTableEntry::set_addr`,
/// on an address made by `PhysAddr::new` and on flags made by
/// `PageTableFlags::from_bits_retain`: the entry becomes the address with
/// the flags' bits set in it, and no other entry changes; the table has its
/// 512 entries.  Left out are the inputs on which one of these panics: an
/// index of 512 or more, an address with a bit from 52 on set, an address
/// that is not a multiple of 4096.
#[verifier::external_body]
fn set_entry_addr(
    table: &mut ::x86_64::structures::paging::PageTable,
    index: usize,
    addr: u64,
    flags: u64,
)
    requires
        index < ENTRY_COUNT,
        addr < PHYS_LIMIT,
        addr % PAGE_SIZE == 0,
    ensures
        entry_set(
            page_table_entries(*old(table)),
            page_table_entries(*final(table)),
            index as int,
            addr | flags,
        ),
{
    let addr = ::x86_64::PhysAddr::new(addr);
    let flags = ::x86_64::structures::paging::PageTableFlags::from_bits_retain(flags);
    table[index].set_addr(addr, flags);
}

/// Whether `index` is the first entry of `entries` that is unused.
pub open spec fn first_unused(entries: Seq<u64>, index: int) -> bool {
    &&& 0 <= index < ENTRY_COUNT
    &&& entries[index] == 0
    &&& forall|j: int| 0 <= j < index ==> entries[j] != 0
}

/// The flags of a mapping made by [`map_frame`]: present and writable, with
/// the bits of `encrypt_flag` where the mapping is to be encrypted.
pub open spec fn mapping_flags(encrypt_flag: u64, encrypted: bool) -> u64 {
    if encrypted {
        PRESENT | WRITABLE | encrypt_flag
    } else {
        PRESENT | WRITABLE
    }
}

/// The flags of the entries that [`setup`] writes: present and writable,
/// with the bits that mark a page as encrypted.
pub open spec fn table_flags(encrypt_flag: u64) -> u64 {
    PRESENT | WRITABLE | encrypt_flag
}

/// Entry `index` of the table of 2 MiB pages: its second entry points to
/// the table at `l1`, every other entry maps its 2 MiB of virtual addresses
/// onto the same physical addresses.
pub open spec fn l2_entry(index: int, l1: u64, encrypt_flag: u64) -> u64 {
    if index == 1 {
        l1 | table_flags(encrypt_flag)
    } else {
        ((index * HUGE_PAGE_SIZE) as u64) | (table_flags(encrypt_flag) | HUGE_PAGE)
    }
}

/// Fills the upper three levels of the page tables: `l4` points to the
/// table at the address `l3_addr`, `l3` to the one at `l2_addr`, and `l2`
/// maps the first gigabyte onto itself, but for its second entry, which
/// points to the table at `l1_addr`.  `encrypt_flag` holds the bits that
/// mark a page as encrypted on this machine; every entry carries them.
///
/// The caller points the processor at `l4` afterwards, unless it is there
/// already.
pub fn setup(
    l4: &mut ::x86_64::structures::paging::PageTable,
    l3: &mut ::x86_64::structures::paging::PageTable,
    l2: &mut ::x86_64::structures::paging::PageTable,
    l3_addr: u64,
    l2_addr: u64,
    l1_addr: u64,
    encrypt_flag: u64,
)
    requires
        l3_addr < PHYS_LIMIT && l3_addr % PAGE_SIZE == 0,
        l2_addr < PHYS_LIMIT && l2_addr % PAGE_SIZE == 0,
        l1_addr < PHYS_LIMIT && l1_addr % PAGE_SIZE == 0,
    ensures
        entry_set(
            page_table_entries(*old(l4)),
            page_table_entries(*final(l4)),
            0,
            l3_addr | table_flags(encrypt_flag),
        ),
        entry_set(
            page_table_entries(*old(l3)),
            page_table_entries(*final(l3)),
            0,
            l2_addr | table_flags(encrypt_flag),
        ),
        page_table_entries(*final(l2)) == Seq::new(
            ENTRY_COUNT as nat,
            |index: int| l2_entry(index, l1_addr, encrypt_flag),
        ),
{
    let pt_flags: u64 = PRESENT | WRITABLE | encrypt_flag;

    set_entry_addr(l2, 0, 0, pt_flags | HUGE_PAGE);
    set_entry_addr(l2, 1, l1_addr, pt_flags);

    let mut index: usize = 2;
    while index < ENTRY_COUNT
        invariant
            2 <= index <= ENTRY_COUNT,
            pt_flags == table_flags(encrypt_flag),
            page_table_entries(*l2).len() == ENTRY_COUNT,
            forall|j: int|
                0 <= j < index ==> page_table_entries(*l2)[j] == l2_entry(
                    j,
                    l1_addr,
                    encrypt_flag,
                ),
        decreases ENTRY_COUNT - index,
    {
        let next_addr: u64 = (index as u64) * HUGE_PAGE_SIZE;
        assert(next_addr % PAGE_SIZE == 0) by {
            assert(next_addr == (index as u64 * 512) * PAGE_SIZE) by (nonlinear_arith)
                requires
                    next_addr == (index as u64) * HUGE_PAGE_SIZE,
                    HUGE_PAGE_SIZE == 512 * PAGE_SIZE,
            ;
            lemma_mod_multiples_basic(index as u64 * 512, PAGE_SIZE as int);
        }
        set_entry_addr(l2, index, next_addr, pt_flags | HUGE_PAGE);
        index += 1;
    }
    assert(page_table_entries(*l2) =~= Seq::new(
        ENTRY_COUNT as nat,
        |index: int| l2_entry(index, l1_addr, encrypt_flag),
    ));

    // Point L3 at L2
    set_entry_addr(l3, 0, l2_addr, pt_flags);
    // Point L4 at L3
    set_entry_addr(l4, 0, l3_addr, pt_flags);
}

/// What [`map_frame`] does to the entries of the table: `after` is `before`
/// with its first unused entry pointing at `frame`, and `addr` is the
/// virtual address that this entry maps; or every entry is in use, nothing
/// changes and there is no address.
pub open spec fn mapped(
    before: Seq<u64>,
    after: Seq<u64>,
    frame: u64,
    flags: u64,
    addr: Option<u64>,
) -> bool {
    match addr {
        Some(addr) => exists|index: int|
            {
                &&& #[trigger] first_unused(before, index)
                &&& entry_set(before, after, index, frame | flags)
                &&& addr == WINDOW_START + index * PAGE_SIZE
            },
        None => {
            &&& forall|j: int| 0 <= j < ENTRY_COUNT ==> before[j] != 0
            &&& after == before
        },
    }
}

/// Maps the frame at the physical address `frame` through the first unused
/// entry of `l1`, and returns the virtual address at which the frame is
/// then found, or `None` and an unchanged table where every entry is in
/// use.  `encrypt_flag` holds the bits that mark a page as encrypted on
/// this machine.
///
/// The caller flushes the address from the TLB before it uses the mapping.
pub fn map_frame(
    l1: &mut ::x86_64::structures::paging::PageTable,
    encrypt_flag: u64,
    frame: u64,
    encrypted: bool,
) -> (addr: Option<u64>)
    requires
        frame < PHYS_LIMIT,
        frame % PAGE_SIZE == 0,
        encrypted ==> encrypt_flag & HUGE_PAGE == 0,
    ensures
        mapped(
            page_table_entries(*old(l1)),
            page_table_entries(*final(l1)),
            frame,
            mapping_flags(encrypt_flag, encrypted),
            addr,
        ),
{
    // Find a spare L1 entry
    let mut index: usize = 0;
    let mut found = entry_is_unused(l1, 0);
    while !found && index + 1 < ENTRY_COUNT
        invariant
            index < ENTRY_COUNT,
            page_table_entries(*l1) == page_table_entries(*old(l1)),
            found == (page_table_entries(*l1)[index as int] == 0),
            forall|j: int| 0 <= j < index ==> page_table_entries(*l1)[j] != 0,
        decreases ENTRY_COUNT - index,
    {
        index += 1;
        found = entry_is_unused(l1, index);
    }
    if !found {
        return None;
    }
    let mut flags: u64 = PRESENT | WRITABLE;

    if encrypted {
        flags |= encrypt_flag;
    }
    proof {
        let e = encrypt_flag;
        assert((1u64 | 1u64 << 1) & (1u64 << 7) == 0) by (bit_vector);
        assert(e & (1u64 << 7) == 0 ==> (1u64 | 1u64 << 1 | e) & (1u64 << 7) == 0)
            by (bit_vector);
        assert(first_unused(page_table_entries(*old(l1)), index as int));
    }
    set_entry_frame(l1, index, frame, flags);

    Some(WINDOW_START + (index as u64) * PAGE_SIZE)
}

} // verus!
