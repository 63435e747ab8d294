//! The x86-64 side of the firmware.

use crate::common::le_byte;
use vstd::prelude::*;

pub mod idt;
pub mod mm;
pub mod sev;

verus! {

/// Maker of the processor, as far as the firmware cares: the two trap into
/// the hypervisor by different instructions.
#[derive(Clone, Copy, Debug, PartialEq, Eq, Structural)]
pub enum CpuVendor {
    Intel,
    Amd,
}

/// The identification string of the processor: the bytes of the three
/// registers that CPUID leaf 0 returns, in the order `ebx`, `edx`, `ecx`,
/// each register from its lowest byte on.
pub open spec fn vendor_string(ebx: u32, edx: u32, ecx: u32) -> Seq<u8> {
    seq![
        le_byte(ebx as u64, 0),
        le_byte(ebx as u64, 1),
        le_byte(ebx as u64, 2),
        le_byte(ebx as u64, 3),
        le_byte(edx as u64, 0),
        le_byte(edx as u64, 1),
        le_byte(edx as u64, 2),
        le_byte(edx as u64, 3),
        le_byte(ecx as u64, 0),
        le_byte(ecx as u64, 1),
        le_byte(ecx as u64, 2),
        le_byte(ecx as u64, 3),
    ]
}

/// `AuthenticAMD`
pub open spec fn amd_string() -> Seq<u8> {
    seq![0x41, 0x75, 0x74, 0x68, 0x65, 0x6e, 0x74, 0x69, 0x63, 0x41, 0x4d, 0x44]
}

/// The vendor that an identification string names: AMD for its own string,
/// Intel for every other.
pub open spec fn vendor_spec(ebx: u32, edx: u32, ecx: u32) -> CpuVendor {
    if vendor_string(ebx, edx, ecx) == amd_string() {
        CpuVendor::Amd
    } else {
        CpuVendor::Intel
    }
}

proof fn lemma_register_bytes(x: u32, b0: u8, b1: u8, b2: u8, b3: u8)
    ensures
        (le_byte(x as u64, 0) == b0 && le_byte(x as u64, 1) == b1 && le_byte(x as u64, 2) == b2
            && le_byte(x as u64, 3) == b3) <==> x == (b0 as u32) | (b1 as u32) << 8 | (b2 as u32)
            << 16 | (b3 as u32) << 24,
{
    assert((((((x as u64) >> 0u64) & 0xff) as u8) == b0 && ((((x as u64) >> 8u64) & 0xff) as u8)
        == b1 && ((((x as u64) >> 16u64) & 0xff) as u8) == b2 && ((((x as u64) >> 24u64)
        & 0xff) as u8) == b3) <==> x == (b0 as u32) | (b1 as u32) << 8 | (b2 as u32) << 16 | (
    b3 as u32) << 24) by (bit_vector);
}

/// Tells the vendor from the registers that CPUID leaf 0 returns.
pub fn setup_cpu_vendor(ebx: u32, edx: u32, ecx: u32) -> (vendor: CpuVendor)
    ensures
        vendor == vendor_spec(ebx, edx, ecx),
{
    proof {
        lemma_register_bytes(ebx, 0x41, 0x75, 0x74, 0x68);
        lemma_register_bytes(edx, 0x65, 0x6e, 0x74, 0x69);
        lemma_register_bytes(ecx, 0x63, 0x41, 0x4d, 0x44);
        assert(0x41u32 | 0x75u32 << 8 | 0x74u32 << 16 | 0x68u32 << 24 == 0x6874_7541u32)
            by (bit_vector);
        assert(0x65u32 | 0x6eu32 << 8 | 0x74u32 << 16 | 0x69u32 << 24 == 0x6974_6e65u32)
            by (bit_vector);
        assert(0x63u32 | 0x41u32 << 8 | 0x4du32 << 16 | 0x44u32 << 24 == 0x444d_4163u32)
            by (bit_vector);
        let id = vendor_string(ebx, edx, ecx);
        let amd = amd_string();
        if id == amd {
            assert(id[0] == amd[0] && id[1] == amd[1] && id[2] == amd[2] && id[3] == amd[3]);
            assert(id[4] == amd[4] && id[5] == amd[5] && id[6] == amd[6] && id[7] == amd[7]);
            assert(id[8] == amd[8] && id[9] == amd[9] && id[10] == amd[10] && id[11] == amd[11]);
        }
        if ebx == 0x6874_7541 && edx == 0x6974_6e65 && ecx == 0x444d_4163 {
            assert(id =~= amd);
        }
    }
    // "Auth", "enti", "cAMD"
    if ebx == 0x6874_7541 && edx == 0x6974_6e65 && ecx == 0x444d_4163 {
        CpuVendor::Amd
    } else {
        CpuVendor::Intel
    }
}

} // verus!
