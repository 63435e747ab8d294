//! The GHCB as the 4096 bytes that guest and hypervisor share.
//!
//! The place of every field in the page is fixed, since the hypervisor
//! reads the same bytes.  [`ghcb_bytes`] states the places;
//! [`Ghcb::to_bytes`] and [`Ghcb::from_bytes`] move a page between its
//! fields and its bytes, so that the memory itself is only ever read and
//! written as bytes.

use crate::arch::x86_64::sev::{Ghcb, GhcbSaveArea};
use crate::common::le_byte;
use vstd::prelude::*;

verus! {

/// Size of the page in bytes.
pub const GHCB_SIZE: usize = 4096;

/// Offset of `save_area.reserved1`.
pub const GHCB_RESERVED1: usize = 0x000;

/// Offset of `save_area.cpl`.
pub const GHCB_CPL: usize = 0x0CB;

/// Offset of `save_area.reserved2`.
pub const GHCB_RESERVED2: usize = 0x0CC;

/// Offset of `save_area.rax`.
pub const GHCB_RAX: usize = 0x1F8;

/// Offset of `save_area.reserved3`.
pub const GHCB_RESERVED3: usize = 0x200;

/// Offset of `save_area.rcx`.
pub const GHCB_RCX: usize = 0x308;

/// Offset of `save_area.rdx`.
pub const GHCB_RDX: usize = 0x310;

/// Offset of `save_area.rbx`.
pub const GHCB_RBX: usize = 0x318;

/// Offset of `save_area.reserved4`.
pub const GHCB_RESERVED4: usize = 0x320;

/// Offset of `save_area.rbp`.
pub const GHCB_RBP: usize = 0x328;

/// Offset of `save_area.rsi`.
pub const GHCB_RSI: usize = 0x330;

/// Offset of `save_area.rdi`.
pub const GHCB_RDI: usize = 0x338;

/// Offset of `save_area.r8`.
pub const GHCB_R8: usize = 0x340;

/// Offset of `save_area.r9`.
pub const GHCB_R9: usize = 0x348;

/// Offset of `save_area.r10`.
pub const GHCB_R10: usize = 0x350;

/// Offset of `save_area.r11`.
pub const GHCB_R11: usize = 0x358;

/// Offset of `save_area.r12`.
pub const GHCB_R12: usize = 0x360;

/// Offset of `save_area.r13`.
pub const GHCB_R13: usize = 0x368;

/// Offset of `save_area.r14`.
pub const GHCB_R14: usize = 0x370;

/// Offset of `save_area.r15`.
pub const GHCB_R15: usize = 0x378;

/// Offset of `save_area.reserved5`.
pub const GHCB_RESERVED5: usize = 0x380;

/// Offset of `save_area.sw_exit_code`.
pub const GHCB_SW_EXIT_CODE: usize = 0x390;

/// Offset of `save_area.sw_exit_info1`.
pub const GHCB_SW_EXIT_INFO1: usize = 0x398;

/// Offset of `save_area.sw_exit_info2`.
pub const GHCB_SW_EXIT_INFO2: usize = 0x3A0;

/// Offset of `save_area.sw_scratch`.
pub const GHCB_SW_SCRATCH: usize = 0x3A8;

/// Offset of `save_area.reserved6`.
pub const GHCB_RESERVED6: usize = 0x3B0;

/// Offset of `save_area.xcr0`.
pub const GHCB_XCR0: usize = 0x3E8;

/// Offset of `save_area.valid_bitmap`.
pub const GHCB_VALID_BITMAP: usize = 0x3F0;

/// Offset of `save_area.x87state_gpa`.
pub const GHCB_X87STATE_GPA: usize = 0x400;

/// Offset of `save_area.reserved7`.
pub const GHCB_RESERVED7: usize = 0x408;

/// Offset of `shared_buffer`.
pub const GHCB_SHARED_BUFFER: usize = 0x800;

/// Offset of `reserved1`, the one of the page.
pub const GHCB_PAGE_RESERVED1: usize = 0xFF0;

/// Offset of `protocol_version`.
pub const GHCB_PROTOCOL_VERSION: usize = 0xFFA;

/// Offset of `ghcb_usage`.
pub const GHCB_USAGE: usize = 0xFFC;

/// The byte of the page at offset `i`.  Integers have their lowest byte
/// first.
pub open spec fn ghcb_byte(g: Ghcb, i: int) -> u8 {
    if i < GHCB_CPL {
        g.save_area.reserved1[i - GHCB_RESERVED1]
    } else if i < GHCB_RESERVED2 {
        g.save_area.cpl
    } else if i < GHCB_RAX {
        g.save_area.reserved2[i - GHCB_RESERVED2]
    } else if i < GHCB_RESERVED3 {
        le_byte(g.save_area.rax, i - GHCB_RAX)
    } else if i < GHCB_RCX {
        g.save_area.reserved3[i - GHCB_RESERVED3]
    } else if i < GHCB_RDX {
        le_byte(g.save_area.rcx, i - GHCB_RCX)
    } else if i < GHCB_RBX {
        le_byte(g.save_area.rdx, i - GHCB_RDX)
    } else if i < GHCB_RESERVED4 {
        le_byte(g.save_area.rbx, i - GHCB_RBX)
    } else if i < GHCB_RBP {
        le_byte(g.save_area.reserved4, i - GHCB_RESERVED4)
    } else if i < GHCB_RSI {
        le_byte(g.save_area.rbp, i - GHCB_RBP)
    } else if i < GHCB_RDI {
        le_byte(g.save_area.rsi, i - GHCB_RSI)
    } else if i < GHCB_R8 {
        le_byte(g.save_area.rdi, i - GHCB_RDI)
    } else if i < GHCB_R9 {
        le_byte(g.save_area.r8, i - GHCB_R8)
    } else if i < GHCB_R10 {
        le_byte(g.save_area.r9, i - GHCB_R9)
    } else if i < GHCB_R11 {
        le_byte(g.save_area.r10, i - GHCB_R10)
    } else if i < GHCB_R12 {
        le_byte(g.save_area.r11, i - GHCB_R11)
    } else if i < GHCB_R13 {
        le_byte(g.save_area.r12, i - GHCB_R12)
    } else if i < GHCB_R14 {
        le_byte(g.save_area.r13, i - GHCB_R13)
    } else if i < GHCB_R15 {
        le_byte(g.save_area.r14, i - GHCB_R14)
    } else if i < GHCB_RESERVED5 {
        le_byte(g.save_area.r15, i - GHCB_R15)
    } else if i < GHCB_SW_EXIT_CODE {
        g.save_area.reserved5[i - GHCB_RESERVED5]
    } else if i < GHCB_SW_EXIT_INFO1 {
        le_byte(g.save_area.sw_exit_code, i - GHCB_SW_EXIT_CODE)
    } else if i < GHCB_SW_EXIT_INFO2 {
        le_byte(g.save_area.sw_exit_info1, i - GHCB_SW_EXIT_INFO1)
    } else if i < GHCB_SW_SCRATCH {
        le_byte(g.save_area.sw_exit_info2, i - GHCB_SW_EXIT_INFO2)
    } else if i < GHCB_RESERVED6 {
        le_byte(g.save_area.sw_scratch, i - GHCB_SW_SCRATCH)
    } else if i < GHCB_XCR0 {
        g.save_area.reserved6[i - GHCB_RESERVED6]
    } else if i < GHCB_VALID_BITMAP {
        le_byte(g.save_area.xcr0, i - GHCB_XCR0)
    } else if i < GHCB_X87STATE_GPA {
        g.save_area.valid_bitmap[i - GHCB_VALID_BITMAP]
    } else if i < GHCB_RESERVED7 {
        le_byte(g.save_area.x87state_gpa, i - GHCB_X87STATE_GPA)
    } else if i < GHCB_SHARED_BUFFER {
        g.save_area.reserved7[i - GHCB_RESERVED7]
    } else if i < GHCB_PAGE_RESERVED1 {
        g.shared_buffer[i - GHCB_SHARED_BUFFER]
    } else if i < GHCB_PROTOCOL_VERSION {
        g.reserved1[i - GHCB_PAGE_RESERVED1]
    } else if i < GHCB_USAGE {
        le_byte(g.protocol_version as u64, i - GHCB_PROTOCOL_VERSION)
    } else {
        le_byte(g.ghcb_usage as u64, i - GHCB_USAGE)
    }
}

/// The bytes of the page.
pub open spec fn ghcb_bytes(g: Ghcb) -> Seq<u8> {
    Seq::new(GHCB_SIZE as nat, |i: int| ghcb_byte(g, i))
}

/// Writes `src` to `page[at..]`.
fn put_bytes<const N: usize>(page: &mut [u8; 4096], at: usize, src: &[u8; N])
    requires
        at + N <= GHCB_SIZE,
    ensures
        forall|j: int|
            0 <= j < GHCB_SIZE ==> final(page)[j] == if at <= j < at + N {
                src[j - at]
            } else {
                old(page)[j]
            },
{
    let mut i: usize = 0;
    while i < N
        invariant
            i <= N,
            at + N <= GHCB_SIZE,
            forall|j: int|
                0 <= j < GHCB_SIZE ==> page[j] == if at <= j < at + i {
                    src[j - at]
                } else {
                    old(page)[j]
                },
        decreases N - i,
    {
        page[at + i] = src[i];
        i += 1;
    }
}

/// Writes the `n` lowest bytes of `x` to `page[at..]`, the lowest first.
fn put_le(page: &mut [u8; 4096], at: usize, x: u64, n: usize)
    requires
        n <= 8,
        at + n <= GHCB_SIZE,
    ensures
        forall|j: int|
            0 <= j < GHCB_SIZE ==> final(page)[j] == if at <= j < at + n {
                le_byte(x, j - at)
            } else {
                old(page)[j]
            },
{
    let mut i: usize = 0;
    while i < n
        invariant
            i <= n,
            n <= 8,
            at + n <= GHCB_SIZE,
            forall|j: int|
                0 <= j < GHCB_SIZE ==> page[j] == if at <= j < at + i {
                    le_byte(x, j - at)
                } else {
                    old(page)[j]
                },
        decreases n - i,
    {
        page[at + i] = ((x >> ((8 * i) as u64)) & 0xff) as u8;
        i += 1;
    }
}

/// Reads `page[at..at + N]`.
fn take_bytes<const N: usize>(page: &[u8; 4096], at: usize) -> (out: [u8; N])
    requires
        at + N <= GHCB_SIZE,
    ensures
        forall|j: int| 0 <= j < N ==> out[j] == page[at + j],
{
    let mut out = [0u8; N];
    let mut i: usize = 0;
    while i < N
        invariant
            i <= N,
            at + N <= GHCB_SIZE,
            forall|j: int| 0 <= j < i ==> out[j] == page[at + j],
        decreases N - i,
    {
        out[i] = page[at + i];
        i += 1;
    }
    out
}

proof fn lemma_le_bytes_u64(b0: u8, b1: u8, b2: u8, b3: u8, b4: u8, b5: u8, b6: u8, b7: u8)
    ensures
        ({
            let x = (b0 as u64) | (b1 as u64) << 8 | (b2 as u64) << 16 | (b3 as u64) << 24 | (
            b4 as u64) << 32 | (b5 as u64) << 40 | (b6 as u64) << 48 | (b7 as u64) << 56;
            &&& le_byte(x, 0) == b0
            &&& le_byte(x, 1) == b1
            &&& le_byte(x, 2) == b2
            &&& le_byte(x, 3) == b3
            &&& le_byte(x, 4) == b4
            &&& le_byte(x, 5) == b5
            &&& le_byte(x, 6) == b6
            &&& le_byte(x, 7) == b7
        }),
{
    let x = (b0 as u64) | (b1 as u64) << 8 | (b2 as u64) << 16 | (b3 as u64) << 24 | (b4 as u64)
        << 32 | (b5 as u64) << 40 | (b6 as u64) << 48 | (b7 as u64) << 56;
    assert(x == (b0 as u64) | (b1 as u64) << 8 | (b2 as u64) << 16 | (b3 as u64) << 24 | (
    b4 as u64) << 32 | (b5 as u64) << 40 | (b6 as u64) << 48 | (b7 as u64) << 56 ==> (((x >> 0u64)
        & 0xff) as u8 == b0 && ((x >> 8u64) & 0xff) as u8 == b1 && ((x >> 16u64) & 0xff) as u8
        == b2 && ((x >> 24u64) & 0xff) as u8 == b3 && ((x >> 32u64) & 0xff) as u8 == b4 && ((x
        >> 40u64) & 0xff) as u8 == b5 && ((x >> 48u64) & 0xff) as u8 == b6 && ((x >> 56u64)
        & 0xff) as u8 == b7)) by (bit_vector);
}

proof fn lemma_le_bytes_u32(b0: u8, b1: u8, b2: u8, b3: u8)
    ensures
        ({
            let x = (b0 as u32) | (b1 as u32) << 8 | (b2 as u32) << 16 | (b3 as u32) << 24;
            &&& le_byte(x as u64, 0) == b0
            &&& le_byte(x as u64, 1) == b1
            &&& le_byte(x as u64, 2) == b2
            &&& le_byte(x as u64, 3) == b3
        }),
{
    let x = (b0 as u32) | (b1 as u32) << 8 | (b2 as u32) << 16 | (b3 as u32) << 24;
    assert(x == (b0 as u32) | (b1 as u32) << 8 | (b2 as u32) << 16 | (b3 as u32) << 24 ==> ((((
    x as u64) >> 0u64) & 0xff) as u8 == b0 && (((x as u64) >> 8u64) & 0xff) as u8 == b1 && (((
    x as u64) >> 16u64) & 0xff) as u8 == b2 && (((x as u64) >> 24u64) & 0xff) as u8 == b3))
        by (bit_vector);
}

proof fn lemma_le_bytes_u16(b0: u8, b1: u8)
    ensures
        ({
            let x = (b0 as u16) | (b1 as u16) << 8;
            &&& le_byte(x as u64, 0) == b0
            &&& le_byte(x as u64, 1) == b1
        }),
{
    let x = (b0 as u16) | (b1 as u16) << 8;
    assert(x == (b0 as u16) | (b1 as u16) << 8 ==> ((((x as u64) >> 0u64) & 0xff) as u8 == b0
        && (((x as u64) >> 8u64) & 0xff) as u8 == b1)) by (bit_vector);
}

/// Reads the integer of eight bytes at `page[at..]`.
fn take_u64(page: &[u8; 4096], at: usize) -> (x: u64)
    requires
        at + 8 <= GHCB_SIZE,
    ensures
        forall|j: int| 0 <= j < 8 ==> #[trigger] le_byte(x, j) == page[at + j],
{
    let b0 = page[at];
    let b1 = page[at + 1];
    let b2 = page[at + 2];
    let b3 = page[at + 3];
    let b4 = page[at + 4];
    let b5 = page[at + 5];
    let b6 = page[at + 6];
    let b7 = page[at + 7];
    proof {
        lemma_le_bytes_u64(b0, b1, b2, b3, b4, b5, b6, b7);
    }
    (b0 as u64) | (b1 as u64) << 8 | (b2 as u64) << 16 | (b3 as u64) << 24 | (b4 as u64) << 32 | (
    b5 as u64) << 40 | (b6 as u64) << 48 | (b7 as u64) << 56
}

/// Reads the integer of four bytes at `page[at..]`.
fn take_u32(page: &[u8; 4096], at: usize) -> (x: u32)
    requires
        at + 4 <= GHCB_SIZE,
    ensures
        forall|j: int| 0 <= j < 4 ==> #[trigger] le_byte(x as u64, j) == page[at + j],
{
    let b0 = page[at];
    let b1 = page[at + 1];
    let b2 = page[at + 2];
    let b3 = page[at + 3];
    proof {
        lemma_le_bytes_u32(b0, b1, b2, b3);
    }
    (b0 as u32) | (b1 as u32) << 8 | (b2 as u32) << 16 | (b3 as u32) << 24
}

/// Reads the integer of two bytes at `page[at..]`.
fn take_u16(page: &[u8; 4096], at: usize) -> (x: u16)
    requires
        at + 2 <= GHCB_SIZE,
    ensures
        forall|j: int| 0 <= j < 2 ==> #[trigger] le_byte(x as u64, j) == page[at + j],
{
    let b0 = page[at];
    let b1 = page[at + 1];
    proof {
        lemma_le_bytes_u16(b0, b1);
    }
    (b0 as u16) | (b1 as u16) << 8
}

impl Ghcb {
    /// The page as bytes.
    pub fn to_bytes(&self) -> (page: [u8; 4096])
        ensures
            page@ == ghcb_bytes(*self),
    {
        let mut page = [0u8; 4096];
        put_bytes(&mut page, GHCB_RESERVED1, &self.save_area.reserved1);
        page[GHCB_CPL] = self.save_area.cpl;
        put_bytes(&mut page, GHCB_RESERVED2, &self.save_area.reserved2);
        put_le(&mut page, GHCB_RAX, self.save_area.rax, 8);
        put_bytes(&mut page, GHCB_RESERVED3, &self.save_area.reserved3);
        put_le(&mut page, GHCB_RCX, self.save_area.rcx, 8);
        put_le(&mut page, GHCB_RDX, self.save_area.rdx, 8);
        put_le(&mut page, GHCB_RBX, self.save_area.rbx, 8);
        put_le(&mut page, GHCB_RESERVED4, self.save_area.reserved4, 8);
        put_le(&mut page, GHCB_RBP, self.save_area.rbp, 8);
        put_le(&mut page, GHCB_RSI, self.save_area.rsi, 8);
        put_le(&mut page, GHCB_RDI, self.save_area.rdi, 8);
        put_le(&mut page, GHCB_R8, self.save_area.r8, 8);
        put_le(&mut page, GHCB_R9, self.save_area.r9, 8);
        put_le(&mut page, GHCB_R10, self.save_area.r10, 8);
        put_le(&mut page, GHCB_R11, self.save_area.r11, 8);
        put_le(&mut page, GHCB_R12, self.save_area.r12, 8);
        put_le(&mut page, GHCB_R13, self.save_area.r13, 8);
        put_le(&mut page, GHCB_R14, self.save_area.r14, 8);
        put_le(&mut page, GHCB_R15, self.save_area.r15, 8);
        put_bytes(&mut page, GHCB_RESERVED5, &self.save_area.reserved5);
        put_le(&mut page, GHCB_SW_EXIT_CODE, self.save_area.sw_exit_code, 8);
        put_le(&mut page, GHCB_SW_EXIT_INFO1, self.save_area.sw_exit_info1, 8);
        put_le(&mut page, GHCB_SW_EXIT_INFO2, self.save_area.sw_exit_info2, 8);
        put_le(&mut page, GHCB_SW_SCRATCH, self.save_area.sw_scratch, 8);
        put_bytes(&mut page, GHCB_RESERVED6, &self.save_area.reserved6);
        put_le(&mut page, GHCB_XCR0, self.save_area.xcr0, 8);
        put_bytes(&mut page, GHCB_VALID_BITMAP, &self.save_area.valid_bitmap);
        put_le(&mut page, GHCB_X87STATE_GPA, self.save_area.x87state_gpa, 8);
        put_bytes(&mut page, GHCB_RESERVED7, &self.save_area.reserved7);
        put_bytes(&mut page, GHCB_SHARED_BUFFER, &self.shared_buffer);
        put_bytes(&mut page, GHCB_PAGE_RESERVED1, &self.reserved1);
        put_le(&mut page, GHCB_PROTOCOL_VERSION, self.protocol_version as u64, 2);
        put_le(&mut page, GHCB_USAGE, self.ghcb_usage as u64, 4);
        assert(page@ =~= ghcb_bytes(*self));
        page
    }

    /// The page that the bytes hold.
    pub fn from_bytes(page: &[u8; 4096]) -> (ghcb: Ghcb)
        ensures
            ghcb_bytes(ghcb) == page@,
    {
        let ghcb = Ghcb {
            save_area: GhcbSaveArea {
                reserved1: take_bytes(page, GHCB_RESERVED1),
                cpl: page[GHCB_CPL],
                reserved2: take_bytes(page, GHCB_RESERVED2),
                rax: take_u64(page, GHCB_RAX),
                reserved3: take_bytes(page, GHCB_RESERVED3),
                rcx: take_u64(page, GHCB_RCX),
                rdx: take_u64(page, GHCB_RDX),
                rbx: take_u64(page, GHCB_RBX),
                reserved4: take_u64(page, GHCB_RESERVED4),
                rbp: take_u64(page, GHCB_RBP),
                rsi: take_u64(page, GHCB_RSI),
                rdi: take_u64(page, GHCB_RDI),
                r8: take_u64(page, GHCB_R8),
                r9: take_u64(page, GHCB_R9),
                r10: take_u64(page, GHCB_R10),
                r11: take_u64(page, GHCB_R11),
                r12: take_u64(page, GHCB_R12),
                r13: take_u64(page, GHCB_R13),
                r14: take_u64(page, GHCB_R14),
                r15: take_u64(page, GHCB_R15),
                reserved5: take_bytes(page, GHCB_RESERVED5),
                sw_exit_code: take_u64(page, GHCB_SW_EXIT_CODE),
                sw_exit_info1: take_u64(page, GHCB_SW_EXIT_INFO1),
                sw_exit_info2: take_u64(page, GHCB_SW_EXIT_INFO2),
                sw_scratch: take_u64(page, GHCB_SW_SCRATCH),
                reserved6: take_bytes(page, GHCB_RESERVED6),
                xcr0: take_u64(page, GHCB_XCR0),
                valid_bitmap: take_bytes(page, GHCB_VALID_BITMAP),
                x87state_gpa: take_u64(page, GHCB_X87STATE_GPA),
                reserved7: take_bytes(page, GHCB_RESERVED7),
            },
            shared_buffer: take_bytes(page, GHCB_SHARED_BUFFER),
            reserved1: take_bytes(page, GHCB_PAGE_RESERVED1),
            protocol_version: take_u16(page, GHCB_PROTOCOL_VERSION),
            ghcb_usage: take_u32(page, GHCB_USAGE),
        };
        assert forall|j: int| 0 <= j < GHCB_SIZE implies ghcb_byte(ghcb, j) == page[j] by {
        }
        assert(ghcb_bytes(ghcb) =~= page@);
        ghcb
    }
}

proof fn lemma_le_bytes_determine(x: u64, y: u64)
    requires
        forall|k: int| 0 <= k < 8 ==> #[trigger] le_byte(x, k) == le_byte(y, k),
    ensures
        x == y,
{
    assert(le_byte(x, 0) == le_byte(y, 0));
    assert(le_byte(x, 1) == le_byte(y, 1));
    assert(le_byte(x, 2) == le_byte(y, 2));
    assert(le_byte(x, 3) == le_byte(y, 3));
    assert(le_byte(x, 4) == le_byte(y, 4));
    assert(le_byte(x, 5) == le_byte(y, 5));
    assert(le_byte(x, 6) == le_byte(y, 6));
    assert(le_byte(x, 7) == le_byte(y, 7));
    assert((((x >> 0u64) & 0xff) as u8 == ((y >> 0u64) & 0xff) as u8 && ((x >> 8u64) & 0xff) as u8
        == ((y >> 8u64) & 0xff) as u8 && ((x >> 16u64) & 0xff) as u8 == ((y >> 16u64) & 0xff) as u8
        && ((x >> 24u64) & 0xff) as u8 == ((y >> 24u64) & 0xff) as u8 && ((x >> 32u64)
        & 0xff) as u8 == ((y >> 32u64) & 0xff) as u8 && ((x >> 40u64) & 0xff) as u8 == ((y
        >> 40u64) & 0xff) as u8 && ((x >> 48u64) & 0xff) as u8 == ((y >> 48u64) & 0xff) as u8
        && ((x >> 56u64) & 0xff) as u8 == ((y >> 56u64) & 0xff) as u8) ==> x == y)
        by (bit_vector);
}

proof fn lemma_le_bytes_determine_u32(x: u32, y: u32)
    requires
        forall|k: int| 0 <= k < 4 ==> #[trigger] le_byte(x as u64, k) == le_byte(y as u64, k),
    ensures
        x == y,
{
    assert(le_byte(x as u64, 0) == le_byte(y as u64, 0));
    assert(le_byte(x as u64, 1) == le_byte(y as u64, 1));
    assert(le_byte(x as u64, 2) == le_byte(y as u64, 2));
    assert(le_byte(x as u64, 3) == le_byte(y as u64, 3));
    assert(((((x as u64) >> 0u64) & 0xff) as u8 == (((y as u64) >> 0u64) & 0xff) as u8 && (((
    x as u64) >> 8u64) & 0xff) as u8 == (((y as u64) >> 8u64) & 0xff) as u8 && (((x as u64)
        >> 16u64) & 0xff) as u8 == (((y as u64) >> 16u64) & 0xff) as u8 && (((x as u64) >> 24u64)
        & 0xff) as u8 == (((y as u64) >> 24u64) & 0xff) as u8) ==> x == y) by (bit_vector);
}

proof fn lemma_le_bytes_determine_u16(x: u16, y: u16)
    requires
        forall|k: int| 0 <= k < 2 ==> #[trigger] le_byte(x as u64, k) == le_byte(y as u64, k),
    ensures
        x == y,
{
    assert(le_byte(x as u64, 0) == le_byte(y as u64, 0));
    assert(le_byte(x as u64, 1) == le_byte(y as u64, 1));
    assert(((((x as u64) >> 0u64) & 0xff) as u8 == (((y as u64) >> 0u64) & 0xff) as u8 && (((
    x as u64) >> 8u64) & 0xff) as u8 == (((y as u64) >> 8u64) & 0xff) as u8) ==> x == y)
        by (bit_vector);
}

/// The bytes of a page determine each of its fields: two pages with the
/// same bytes are the same page.  So [`Ghcb::from_bytes`] undoes
/// [`Ghcb::to_bytes`], and the other way round.
pub proof fn lemma_bytes_determine_page(a: Ghcb, b: Ghcb)
    requires
        ghcb_bytes(a) == ghcb_bytes(b),
    ensures
        a == b,
{
    assert forall|j: int| 0 <= j < GHCB_SIZE implies #[trigger] ghcb_byte(a, j) == ghcb_byte(
        b,
        j,
    ) by {
        assert(ghcb_bytes(a)[j] == ghcb_byte(a, j));
        assert(ghcb_bytes(b)[j] == ghcb_byte(b, j));
    }
    assert(a.save_area.reserved1 =~= b.save_area.reserved1) by {
        assert forall|k: int| 0 <= k < 203 implies a.save_area.reserved1[k] == b.save_area.reserved1[k] by {
            assert(ghcb_byte(a, GHCB_RESERVED1 + k) == ghcb_byte(b, GHCB_RESERVED1 + k));
        }
    }
    assert(ghcb_byte(a, GHCB_CPL as int) == ghcb_byte(b, GHCB_CPL as int));
    assert(a.save_area.reserved2 =~= b.save_area.reserved2) by {
        assert forall|k: int| 0 <= k < 300 implies a.save_area.reserved2[k] == b.save_area.reserved2[k] by {
            assert(ghcb_byte(a, GHCB_RESERVED2 + k) == ghcb_byte(b, GHCB_RESERVED2 + k));
        }
    }
    assert(a.save_area.rax == b.save_area.rax) by {
        assert forall|k: int| 0 <= k < 8 implies #[trigger] le_byte(a.save_area.rax, k) == le_byte(b.save_area.rax, k) by {
            assert(ghcb_byte(a, GHCB_RAX + k) == ghcb_byte(b, GHCB_RAX + k));
        }
        lemma_le_bytes_determine(a.save_area.rax, b.save_area.rax);
    }
    assert(a.save_area.reserved3 =~= b.save_area.reserved3) by {
        assert forall|k: int| 0 <= k < 264 implies a.save_area.reserved3[k] == b.save_area.reserved3[k] by {
            assert(ghcb_byte(a, GHCB_RESERVED3 + k) == ghcb_byte(b, GHCB_RESERVED3 + k));
        }
    }
    assert(a.save_area.rcx == b.save_area.rcx) by {
        assert forall|k: int| 0 <= k < 8 implies #[trigger] le_byte(a.save_area.rcx, k) == le_byte(b.save_area.rcx, k) by {
            assert(ghcb_byte(a, GHCB_RCX + k) == ghcb_byte(b, GHCB_RCX + k));
        }
        lemma_le_bytes_determine(a.save_area.rcx, b.save_area.rcx);
    }
    assert(a.save_area.rdx == b.save_area.rdx) by {
        assert forall|k: int| 0 <= k < 8 implies #[trigger] le_byte(a.save_area.rdx, k) == le_byte(b.save_area.rdx, k) by {
            assert(ghcb_byte(a, GHCB_RDX + k) == ghcb_byte(b, GHCB_RDX + k));
        }
        lemma_le_bytes_determine(a.save_area.rdx, b.save_area.rdx);
    }
    assert(a.save_area.rbx == b.save_area.rbx) by {
        assert forall|k: int| 0 <= k < 8 implies #[trigger] le_byte(a.save_area.rbx, k) == le_byte(b.save_area.rbx, k) by {
            assert(ghcb_byte(a, GHCB_RBX + k) == ghcb_byte(b, GHCB_RBX + k));
        }
        lemma_le_bytes_determine(a.save_area.rbx, b.save_area.rbx);
    }
    assert(a.save_area.reserved4 == b.save_area.reserved4) by {
        assert forall|k: int| 0 <= k < 8 implies #[trigger] le_byte(a.save_area.reserved4, k) == le_byte(b.save_area.reserved4, k) by {
            assert(ghcb_byte(a, GHCB_RESERVED4 + k) == ghcb_byte(b, GHCB_RESERVED4 + k));
        }
        lemma_le_bytes_determine(a.save_area.reserved4, b.save_area.reserved4);
    }
    assert(a.save_area.rbp == b.save_area.rbp) by {
        assert forall|k: int| 0 <= k < 8 implies #[trigger] le_byte(a.save_area.rbp, k) == le_byte(b.save_area.rbp, k) by {
            assert(ghcb_byte(a, GHCB_RBP + k) == ghcb_byte(b, GHCB_RBP + k));
        }
        lemma_le_bytes_determine(a.save_area.rbp, b.save_area.rbp);
    }
    assert(a.save_area.rsi == b.save_area.rsi) by {
        assert forall|k: int| 0 <= k < 8 implies #[trigger] le_byte(a.save_area.rsi, k) == le_byte(b.save_area.rsi, k) by {
            assert(ghcb_byte(a, GHCB_RSI + k) == ghcb_byte(b, GHCB_RSI + k));
        }
        lemma_le_bytes_determine(a.save_area.rsi, b.save_area.rsi);
    }
    assert(a.save_area.rdi == b.save_area.rdi) by {
        assert forall|k: int| 0 <= k < 8 implies #[trigger] le_byte(a.save_area.rdi, k) == le_byte(b.save_area.rdi, k) by {
            assert(ghcb_byte(a, GHCB_RDI + k) == ghcb_byte(b, GHCB_RDI + k));
        }
        lemma_le_bytes_determine(a.save_area.rdi, b.save_area.rdi);
    }
    assert(a.save_area.r8 == b.save_area.r8) by {
        assert forall|k: int| 0 <= k < 8 implies #[trigger] le_byte(a.save_area.r8, k) == le_byte(b.save_area.r8, k) by {
            assert(ghcb_byte(a, GHCB_R8 + k) == ghcb_byte(b, GHCB_R8 + k));
        }
        lemma_le_bytes_determine(a.save_area.r8, b.save_area.r8);
    }
    assert(a.save_area.r9 == b.save_area.r9) by {
        assert forall|k: int| 0 <= k < 8 implies #[trigger] le_byte(a.save_area.r9, k) == le_byte(b.save_area.r9, k) by {
            assert(ghcb_byte(a, GHCB_R9 + k) == ghcb_byte(b, GHCB_R9 + k));
        }
        lemma_le_bytes_determine(a.save_area.r9, b.save_area.r9);
    }
    assert(a.save_area.r10 == b.save_area.r10) by {
        assert forall|k: int| 0 <= k < 8 implies #[trigger] le_byte(a.save_area.r10, k) == le_byte(b.save_area.r10, k) by {
            assert(ghcb_byte(a, GHCB_R10 + k) == ghcb_byte(b, GHCB_R10 + k));
        }
        lemma_le_bytes_determine(a.save_area.r10, b.save_area.r10);
    }
    assert(a.save_area.r11 == b.save_area.r11) by {
        assert forall|k: int| 0 <= k < 8 implies #[trigger] le_byte(a.save_area.r11, k) == le_byte(b.save_area.r11, k) by {
            assert(ghcb_byte(a, GHCB_R11 + k) == ghcb_byte(b, GHCB_R11 + k));
        }
        lemma_le_bytes_determine(a.save_area.r11, b.save_area.r11);
    }
    assert(a.save_area.r12 == b.save_area.r12) by {
        assert forall|k: int| 0 <= k < 8 implies #[trigger] le_byte(a.save_area.r12, k) == le_byte(b.save_area.r12, k) by {
            assert(ghcb_byte(a, GHCB_R12 + k) == ghcb_byte(b, GHCB_R12 + k));
        }
        lemma_le_bytes_determine(a.save_area.r12, b.save_area.r12);
    }
    assert(a.save_area.r13 == b.save_area.r13) by {
        assert forall|k: int| 0 <= k < 8 implies #[trigger] le_byte(a.save_area.r13, k) == le_byte(b.save_area.r13, k) by {
            assert(ghcb_byte(a, GHCB_R13 + k) == ghcb_byte(b, GHCB_R13 + k));
        }
        lemma_le_bytes_determine(a.save_area.r13, b.save_area.r13);
    }
    assert(a.save_area.r14 == b.save_area.r14) by {
        assert forall|k: int| 0 <= k < 8 implies #[trigger] le_byte(a.save_area.r14, k) == le_byte(b.save_area.r14, k) by {
            assert(ghcb_byte(a, GHCB_R14 + k) == ghcb_byte(b, GHCB_R14 + k));
        }
        lemma_le_bytes_determine(a.save_area.r14, b.save_area.r14);
    }
    assert(a.save_area.r15 == b.save_area.r15) by {
        assert forall|k: int| 0 <= k < 8 implies #[trigger] le_byte(a.save_area.r15, k) == le_byte(b.save_area.r15, k) by {
            assert(ghcb_byte(a, GHCB_R15 + k) == ghcb_byte(b, GHCB_R15 + k));
        }
        lemma_le_bytes_determine(a.save_area.r15, b.save_area.r15);
    }
    assert(a.save_area.reserved5 =~= b.save_area.reserved5) by {
        assert forall|k: int| 0 <= k < 16 implies a.save_area.reserved5[k] == b.save_area.reserved5[k] by {
            assert(ghcb_byte(a, GHCB_RESERVED5 + k) == ghcb_byte(b, GHCB_RESERVED5 + k));
        }
    }
    assert(a.save_area.sw_exit_code == b.save_area.sw_exit_code) by {
        assert forall|k: int| 0 <= k < 8 implies #[trigger] le_byte(a.save_area.sw_exit_code, k) == le_byte(b.save_area.sw_exit_code, k) by {
            assert(ghcb_byte(a, GHCB_SW_EXIT_CODE + k) == ghcb_byte(b, GHCB_SW_EXIT_CODE + k));
        }
        lemma_le_bytes_determine(a.save_area.sw_exit_code, b.save_area.sw_exit_code);
    }
    assert(a.save_area.sw_exit_info1 == b.save_area.sw_exit_info1) by {
        assert forall|k: int| 0 <= k < 8 implies #[trigger] le_byte(a.save_area.sw_exit_info1, k) == le_byte(b.save_area.sw_exit_info1, k) by {
            assert(ghcb_byte(a, GHCB_SW_EXIT_INFO1 + k) == ghcb_byte(b, GHCB_SW_EXIT_INFO1 + k));
        }
        lemma_le_bytes_determine(a.save_area.sw_exit_info1, b.save_area.sw_exit_info1);
    }
    assert(a.save_area.sw_exit_info2 == b.save_area.sw_exit_info2) by {
        assert forall|k: int| 0 <= k < 8 implies #[trigger] le_byte(a.save_area.sw_exit_info2, k) == le_byte(b.save_area.sw_exit_info2, k) by {
            assert(ghcb_byte(a, GHCB_SW_EXIT_INFO2 + k) == ghcb_byte(b, GHCB_SW_EXIT_INFO2 + k));
        }
        lemma_le_bytes_determine(a.save_area.sw_exit_info2, b.save_area.sw_exit_info2);
    }
    assert(a.save_area.sw_scratch == b.save_area.sw_scratch) by {
        assert forall|k: int| 0 <= k < 8 implies #[trigger] le_byte(a.save_area.sw_scratch, k) == le_byte(b.save_area.sw_scratch, k) by {
            assert(ghcb_byte(a, GHCB_SW_SCRATCH + k) == ghcb_byte(b, GHCB_SW_SCRATCH + k));
        }
        lemma_le_bytes_determine(a.save_area.sw_scratch, b.save_area.sw_scratch);
    }
    assert(a.save_area.reserved6 =~= b.save_area.reserved6) by {
        assert forall|k: int| 0 <= k < 56 implies a.save_area.reserved6[k] == b.save_area.reserved6[k] by {
            assert(ghcb_byte(a, GHCB_RESERVED6 + k) == ghcb_byte(b, GHCB_RESERVED6 + k));
        }
    }
    assert(a.save_area.xcr0 == b.save_area.xcr0) by {
        assert forall|k: int| 0 <= k < 8 implies #[trigger] le_byte(a.save_area.xcr0, k) == le_byte(b.save_area.xcr0, k) by {
            assert(ghcb_byte(a, GHCB_XCR0 + k) == ghcb_byte(b, GHCB_XCR0 + k));
        }
        lemma_le_bytes_determine(a.save_area.xcr0, b.save_area.xcr0);
    }
    assert(a.save_area.valid_bitmap =~= b.save_area.valid_bitmap) by {
        assert forall|k: int| 0 <= k < 16 implies a.save_area.valid_bitmap[k] == b.save_area.valid_bitmap[k] by {
            assert(ghcb_byte(a, GHCB_VALID_BITMAP + k) == ghcb_byte(b, GHCB_VALID_BITMAP + k));
        }
    }
    assert(a.save_area.x87state_gpa == b.save_area.x87state_gpa) by {
        assert forall|k: int| 0 <= k < 8 implies #[trigger] le_byte(a.save_area.x87state_gpa, k) == le_byte(b.save_area.x87state_gpa, k) by {
            assert(ghcb_byte(a, GHCB_X87STATE_GPA + k) == ghcb_byte(b, GHCB_X87STATE_GPA + k));
        }
        lemma_le_bytes_determine(a.save_area.x87state_gpa, b.save_area.x87state_gpa);
    }
    assert(a.save_area.reserved7 =~= b.save_area.reserved7) by {
        assert forall|k: int| 0 <= k < 1016 implies a.save_area.reserved7[k] == b.save_area.reserved7[k] by {
            assert(ghcb_byte(a, GHCB_RESERVED7 + k) == ghcb_byte(b, GHCB_RESERVED7 + k));
        }
    }
    assert(a.shared_buffer =~= b.shared_buffer) by {
        assert forall|k: int| 0 <= k < 2032 implies a.shared_buffer[k] == b.shared_buffer[k] by {
            assert(ghcb_byte(a, GHCB_SHARED_BUFFER + k) == ghcb_byte(b, GHCB_SHARED_BUFFER + k));
        }
    }
    assert(a.reserved1 =~= b.reserved1) by {
        assert forall|k: int| 0 <= k < 10 implies a.reserved1[k] == b.reserved1[k] by {
            assert(ghcb_byte(a, GHCB_PAGE_RESERVED1 + k) == ghcb_byte(b, GHCB_PAGE_RESERVED1 + k));
        }
    }
    assert(a.protocol_version == b.protocol_version) by {
        assert forall|k: int| 0 <= k < 2 implies #[trigger] le_byte(a.protocol_version as u64, k) == le_byte(b.protocol_version as u64, k) by {
            assert(ghcb_byte(a, GHCB_PROTOCOL_VERSION + k) == ghcb_byte(b, GHCB_PROTOCOL_VERSION + k));
        }
        lemma_le_bytes_determine_u16(a.protocol_version, b.protocol_version);
    }
    assert(a.ghcb_usage == b.ghcb_usage) by {
        assert forall|k: int| 0 <= k < 4 implies #[trigger] le_byte(a.ghcb_usage as u64, k) == le_byte(b.ghcb_usage as u64, k) by {
            assert(ghcb_byte(a, GHCB_USAGE + k) == ghcb_byte(b, GHCB_USAGE + k));
        }
        lemma_le_bytes_determine_u32(a.ghcb_usage, b.ghcb_usage);
    }
}

} // verus!
