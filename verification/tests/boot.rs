use xrtf::arch::FrameMapping;
use xrtf::bootinfo::{EntryType, MemoryEntry};
use xrtf::common::ascii_strip;
use xrtf::console::xen::{
    XenConsInterface, XenConsole, HVM_PARAM_CONSOLE_EVTCHN, HVM_PARAM_CONSOLE_PFN, OUT_PROD_START,
};
use xrtf::layout::{MemoryAttribute, MemoryDescriptor};
use xrtf::pvh::{MemMapEntry, StartInfo};
use xrtf::xen::event::EventChannel;

#[test]
fn strip_removes_the_padding() {
    assert_eq!(ascii_strip(b"console=hvc0\0"), "console=hvc0");
    assert_eq!(ascii_strip(b"\0\0quiet\0\0\0"), "quiet");
    assert_eq!(ascii_strip(b"plain"), "plain");
}

#[test]
fn strip_keeps_what_is_inside() {
    assert_eq!(ascii_strip(b"\0a\0b\0"), "a\0b");
    assert_eq!(ascii_strip(b" a \0"), " a ");
    assert_eq!(ascii_strip("\0gr\u{fc}n\0".as_bytes()), "gr\u{fc}n");
}

#[test]
fn strip_of_padding_alone_is_empty() {
    assert_eq!(ascii_strip(b""), "");
    assert_eq!(ascii_strip(b"\0"), "");
    assert_eq!(ascii_strip(b"\0\0\0\0"), "");
}

fn descriptor(start: usize, end: usize) -> MemoryDescriptor {
    MemoryDescriptor { name: "Kernel", range: start..end, attribute: MemoryAttribute::Code }
}

#[test]
fn descriptor_reports_its_bounds() {
    let d = descriptor(0x10_0000, 0x20_3000);
    assert_eq!(d.range_start(), 0x10_0000);
    assert_eq!(d.range_end(), 0x20_3000);
    assert_eq!(d.name, "Kernel");
    assert_eq!(d.attribute, MemoryAttribute::Code);
    assert_eq!(MemoryDescriptor::PAGE_SIZE, 0x1000);
}

#[test]
fn descriptor_counts_its_pages() {
    assert_eq!(descriptor(0x10_0000, 0x20_3000).page_count(), 0x103);
    assert_eq!(descriptor(0x1000, 0x2000).page_count(), 1);
    assert_eq!(descriptor(0x5000, 0x5000).page_count(), 0);
    assert_eq!(descriptor(0, 0x1000 * 77).page_count(), 77);
}

fn entry(entry_type: u32) -> MemoryEntry {
    MemoryEntry::from(MemMapEntry { addr: 0x10_0000, size: 0x4000, entry_type, _pad: 0 })
}

#[test]
fn memory_map_types() {
    assert_eq!(
        entry(1),
        MemoryEntry { addr: 0x10_0000, size: 0x4000, entry_type: EntryType::Ram }
    );
    assert_eq!(entry(2).entry_type, EntryType::Reserved);
    assert_eq!(entry(3).entry_type, EntryType::AcpiReclaimable);
    assert_eq!(entry(4).entry_type, EntryType::AcpiNvs);
    assert_eq!(entry(5).entry_type, EntryType::Bad);
    assert_eq!(entry(6).entry_type, EntryType::Bad);
    assert_eq!(entry(7).entry_type, EntryType::Persistent);
}

#[test]
fn unknown_memory_map_types_are_reserved() {
    assert_eq!(entry(0).entry_type, EntryType::Reserved);
    assert_eq!(entry(8).entry_type, EntryType::Reserved);
    assert_eq!(entry(u32::MAX).entry_type, EntryType::Reserved);
}

fn start_info(version: u32, memmap_paddr: u64, memmap_entries: u32) -> StartInfo {
    StartInfo {
        magic: [0x78, 0x45, 0x6e, 0x33],
        version,
        flags: 0,
        nr_modules: 0,
        modlist_paddr: 0,
        cmdline_paddr: 0x9000,
        rsdp_paddr: 0xe_0000,
        memmap_paddr,
        memmap_entries,
        _pad: 0,
    }
}

#[test]
fn start_info_names_the_protocol() {
    let info = start_info(1, 0x8000, 5);
    assert_eq!(info.name(), "PVH Boot Protocol");
    assert_eq!(info.rsdp_addr(), Some(0xe_0000));
}

#[test]
fn start_info_counts_the_memory_map() {
    assert_eq!(start_info(1, 0x8000, 5).num_entries(), 5);
    assert_eq!(start_info(2, 0x8000, 0).num_entries(), 0);
    assert_eq!(start_info(0, 0x8000, 5).num_entries(), 0);
    assert_eq!(start_info(1, 0, 5).num_entries(), 0);
}

#[test]
fn console_parameters() {
    assert_eq!(HVM_PARAM_CONSOLE_PFN, 17);
    assert_eq!(HVM_PARAM_CONSOLE_EVTCHN, 18);
    assert_eq!(OUT_PROD_START, 1);
}

#[test]
fn console_page_holds_both_rings() {
    let page = XenConsInterface {
        in_buffer: [0; 1024],
        out_buffer: [0; 2048],
        in_cons: 0,
        in_prod: 0,
        out_cons: 0,
        out_prod: OUT_PROD_START,
    };
    assert_eq!(page.in_buffer.len(), 1024);
    assert_eq!(page.out_buffer.len(), 2048);
    assert_eq!(page.out_prod, 1);
}

#[test]
fn console_output_ring_is_a_view_of_the_page() {
    let mut page = XenConsInterface {
        in_buffer: [0x11; 1024],
        out_buffer: [0; 2048],
        in_cons: 7,
        in_prod: 8,
        out_cons: 2047,
        out_prod: OUT_PROD_START,
    };
    page.out_buffer[1] = 0x42;
    let mut ring = page.out_ring();
    assert_eq!(ring.ring.len(), 2048);
    assert_eq!(ring.capacity(), 2047);
    assert_eq!(ring.ring[1], 0x42);
    assert_eq!((ring.cons, ring.prod), (2047, 1));
    assert_eq!(ring.write(b"hi"), Ok(()));
    assert_eq!(&ring.ring[1..3], b"hi");
    assert_eq!(ring.prod, 3);
}

#[test]
fn console_without_a_page_is_absent() {
    assert_eq!(XenConsole::new(0, 3), None);
    assert_eq!(XenConsole::new(0, 0), None);
}

#[test]
fn console_is_mapped_unencrypted() {
    let console = XenConsole::new(0xfeff, 0x1_0000_0003).unwrap();
    assert_eq!(console, XenConsole { pfn: 0xfeff, event_channel: EventChannel(3) });
    assert_eq!(console.mapping(), FrameMapping { pfn: 0xfeff, encrypted: false });
}
