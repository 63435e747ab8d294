use xrtf::arch::x86_64::sev::wire::{
    GHCB_CPL, GHCB_PROTOCOL_VERSION, GHCB_R12, GHCB_RAX, GHCB_RBX, GHCB_RCX, GHCB_RDI, GHCB_RDX,
    GHCB_RSI, GHCB_SHARED_BUFFER, GHCB_SIZE, GHCB_SW_EXIT_CODE, GHCB_SW_EXIT_INFO1,
    GHCB_SW_EXIT_INFO2, GHCB_SW_SCRATCH, GHCB_USAGE, GHCB_VALID_BITMAP, GHCB_X87STATE_GPA,
    GHCB_XCR0,
};
use xrtf::arch::x86_64::sev::Ghcb;

#[test]
fn offsets_are_those_of_the_published_layout() {
    assert_eq!(GHCB_CPL, 0xCB);
    assert_eq!(GHCB_RAX, 0x1F8);
    assert_eq!(GHCB_RCX, 0x308);
    assert_eq!(GHCB_RDX, 0x310);
    assert_eq!(GHCB_RBX, 0x318);
    assert_eq!(GHCB_RSI, 0x330);
    assert_eq!(GHCB_RDI, 0x338);
    assert_eq!(GHCB_R12, 0x360);
    assert_eq!(GHCB_SW_EXIT_CODE, 0x390);
    assert_eq!(GHCB_SW_EXIT_INFO1, 0x398);
    assert_eq!(GHCB_SW_EXIT_INFO2, 0x3A0);
    assert_eq!(GHCB_SW_SCRATCH, 0x3A8);
    assert_eq!(GHCB_XCR0, 0x3E8);
    assert_eq!(GHCB_VALID_BITMAP, 0x3F0);
    assert_eq!(GHCB_X87STATE_GPA, 0x400);
    assert_eq!(GHCB_SHARED_BUFFER, 0x800);
    assert_eq!(GHCB_PROTOCOL_VERSION, 0xFFA);
    assert_eq!(GHCB_USAGE, 0xFFC);
    assert_eq!(GHCB_SIZE, 4096);
}

#[test]
fn fields_land_at_their_offsets() {
    let mut ghcb = Ghcb::new();
    ghcb.save_area.cpl = 0x5a;
    ghcb.save_area.rax = 0x0807_0605_0403_0201;
    ghcb.save_area.rcx = 0x1817_1615_1413_1211;
    ghcb.save_area.sw_exit_code = 0x72;
    ghcb.save_area.sw_exit_info1 = 1;
    ghcb.save_area.reserved7[1015] = 0x77;
    ghcb.shared_buffer[0] = 0xb0;
    ghcb.shared_buffer[2031] = 0xbf;
    ghcb.reserved1[9] = 0x99;
    ghcb.protocol_version = 0x0201;
    ghcb.ghcb_usage = 0xd4c3_b2a1;

    let mut expected = [0u8; 4096];
    expected[0xCB] = 0x5a;
    expected[0x1F8..0x200].copy_from_slice(&[1, 2, 3, 4, 5, 6, 7, 8]);
    expected[0x308..0x310].copy_from_slice(&[0x11, 0x12, 0x13, 0x14, 0x15, 0x16, 0x17, 0x18]);
    expected[0x390] = 0x72;
    expected[0x398] = 1;
    expected[0x7FF] = 0x77;
    expected[0x800] = 0xb0;
    expected[0xFEF] = 0xbf;
    expected[0xFF9] = 0x99;
    expected[0xFFA] = 0x01;
    expected[0xFFB] = 0x02;
    expected[0xFFC..0x1000].copy_from_slice(&[0xa1, 0xb2, 0xc3, 0xd4]);
    assert_eq!(ghcb.to_bytes(), expected);
    assert_eq!(Ghcb::from_bytes(&expected), ghcb);
}

#[test]
fn every_byte_goes_there_and_back() {
    let mut page = [0u8; 4096];
    for (i, byte) in page.iter_mut().enumerate() {
        *byte = (i * 7 + i / 256) as u8;
    }
    let ghcb = Ghcb::from_bytes(&page);
    assert_eq!(ghcb.to_bytes(), page);
    assert_eq!(ghcb.save_area.cpl, page[0xCB]);
    assert_eq!(ghcb.save_area.rbx, u64::from_le_bytes(page[0x318..0x320].try_into().unwrap()));
    assert_eq!(ghcb.save_area.r15, u64::from_le_bytes(page[0x378..0x380].try_into().unwrap()));
    assert_eq!(ghcb.save_area.valid_bitmap[..], page[0x3F0..0x400]);
    assert_eq!(ghcb.shared_buffer[..], page[0x800..0xFF0]);
    assert_eq!(ghcb.protocol_version, u16::from_le_bytes([page[0xFFA], page[0xFFB]]));
    assert_eq!(ghcb.ghcb_usage, u32::from_le_bytes(page[0xFFC..0x1000].try_into().unwrap()));
}
