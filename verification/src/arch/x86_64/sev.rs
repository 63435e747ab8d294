//! The guest-hypervisor communication block (GHCB) of an SEV-ES guest.
//!
//! A guest whose registers are encrypted cannot have CPUID, RDMSR, WRMSR or
//! VMMCALL emulated behind its back.  Such an instruction raises a VMM
//! communication exception instead; the handler puts what the hypervisor
//! may see in a page that both sides share, asks for the emulation, and
//! takes the results from the same page.
//!
//! This module decides what is put in the page and what is taken from it.
//! The exchange itself belongs to the caller: every function that needs one
//! returns a [`VcAction`] that asks for it, and a second function continues
//! once the page is back.

use crate::arch::x86_64::idt::CpuRegs;
use crate::arch::x86_64::mm::PAGE_SIZE;
use crate::arch::FrameMapping;
use vstd::prelude::*;

pub mod wire;

verus! {

/// MSR that reports which of the SEV features are active.
pub const SEV_STATUS_MSR: u32 = 0xc001_0131;

/// MSR through which guest and hypervisor talk before and beside the page.
pub const GHCB_MSR: u32 = 0xc001_0130;

/// Tag of a termination request in the GHCB MSR.
pub const GHCB_EXIT_REQ: u64 = 0x100;

/// Bit of the SEV status that is set in an SEV-ES guest.
pub const SEV_ES_ENABLED: u64 = 0x2;

/// Version of the protocol that this guest speaks.
pub const GHCB_PROTOCOL_VERSION: u16 = 0x1;

/// Exit code of a trapped CPUID.
pub const VMEXIT_CPUID: u64 = 0x72;

/// Exit code of a trapped RDMSR or WRMSR.
pub const VMEXIT_MSR: u64 = 0x7c;

/// Exit code of a trapped VMMCALL.
pub const VMEXIT_VMMCALL: u64 = 0x81;

/// Length of the VMMCALL instruction.
pub const VMMCALL_INST_LEN: u64 = 0x3;

/// Length of the CPUID instruction.
pub const CPUID_INST_LEN: u64 = 0x2;

/// Length of the RDMSR and of the WRMSR instruction.
pub const MSR_INST_LEN: u64 = 0x2;

/// Termination reason: the trapped instruction is neither RDMSR nor WRMSR.
pub const TERMINATE_OPCODE: u16 = 1;

/// Termination reason: a trap arrived and there is no GHCB.
pub const TERMINATE_NO_GHCB: u16 = 2;

/// Termination reason: the hypervisor reported that the MSR access failed.
pub const TERMINATE_MSR: u16 = 3;

/// GHCB save area.
///
/// The fields follow each other without gaps; the reserved ones stand for
/// the bytes that the layout leaves out between them.
#[derive(Debug, Copy, Clone, PartialEq, Eq)]
pub struct GhcbSaveArea {
    pub reserved1: [u8; 203],
    pub cpl: u8,
    pub reserved2: [u8; 300],
    pub rax: u64,
    pub reserved3: [u8; 264],
    pub rcx: u64,
    pub rdx: u64,
    pub rbx: u64,
    pub reserved4: u64,
    pub rbp: u64,
    pub rsi: u64,
    pub rdi: u64,
    pub r8: u64,
    pub r9: u64,
    pub r10: u64,
    pub r11: u64,
    pub r12: u64,
    pub r13: u64,
    pub r14: u64,
    pub r15: u64,
    pub reserved5: [u8; 16],
    pub sw_exit_code: u64,
    pub sw_exit_info1: u64,
    pub sw_exit_info2: u64,
    pub sw_scratch: u64,
    pub reserved6: [u8; 56],
    pub xcr0: u64,
    pub valid_bitmap: [u8; 16],
    pub x87state_gpa: u64,
    pub reserved7: [u8; 1016],
}

/// GHCB
#[derive(Debug, Copy, Clone, PartialEq, Eq)]
pub struct Ghcb {
    pub save_area: GhcbSaveArea,
    pub shared_buffer: [u8; 2032],
    pub reserved1: [u8; 10],
    pub protocol_version: u16,
    pub ghcb_usage: u32,
}

/// `N` bytes that are zero.
pub open spec fn zeros<const N: usize>() -> [u8; N] {
    vstd::array::spec_array_fill_for_copy_type::<u8, N>(0)
}

impl Ghcb {
    /// The page with every byte zero.
    pub open spec fn zeroed() -> Ghcb {
        Ghcb {
            save_area: GhcbSaveArea {
                reserved1: zeros::<203>(),
                cpl: 0,
                reserved2: zeros::<300>(),
                rax: 0,
                reserved3: zeros::<264>(),
                rcx: 0,
                rdx: 0,
                rbx: 0,
                reserved4: 0,
                rbp: 0,
                rsi: 0,
                rdi: 0,
                r8: 0,
                r9: 0,
                r10: 0,
                r11: 0,
                r12: 0,
                r13: 0,
                r14: 0,
                r15: 0,
                reserved5: zeros::<16>(),
                sw_exit_code: 0,
                sw_exit_info1: 0,
                sw_exit_info2: 0,
                sw_scratch: 0,
                reserved6: zeros::<56>(),
                xcr0: 0,
                valid_bitmap: zeros::<16>(),
                x87state_gpa: 0,
                reserved7: zeros::<1016>(),
            },
            shared_buffer: zeros::<2032>(),
            reserved1: zeros::<10>(),
            protocol_version: 0,
            ghcb_usage: 0,
        }
    }

    /// A page with every byte zero.
    pub fn new() -> (ghcb: Self)
        ensures
            ghcb == Ghcb::zeroed(),
    {
        Self {
            save_area: GhcbSaveArea {
                reserved1: [0u8; 203],
                cpl: 0,
                reserved2: [0u8; 300],
                rax: 0,
                reserved3: [0u8; 264],
                rcx: 0,
                rdx: 0,
                rbx: 0,
                reserved4: 0,
                rbp: 0,
                rsi: 0,
                rdi: 0,
                r8: 0,
                r9: 0,
                r10: 0,
                r11: 0,
                r12: 0,
                r13: 0,
                r14: 0,
                r15: 0,
                reserved5: [0u8; 16],
                sw_exit_code: 0,
                sw_exit_info1: 0,
                sw_exit_info2: 0,
                sw_scratch: 0,
                reserved6: [0u8; 56],
                xcr0: 0,
                valid_bitmap: [0u8; 16],
                x87state_gpa: 0,
                reserved7: [0u8; 1016],
            },
            shared_buffer: [0u8; 2032],
            reserved1: [0u8; 10],
            protocol_version: 0,
            ghcb_usage: 0,
        }
    }
}

/// The exchange that a trap is waiting for.
#[derive(Clone, Copy, Debug, PartialEq, Eq, Structural)]
pub enum VcExit {
    Cpuid,
    Msr { wrmsr: bool },
    Vmmcall,
}

/// What the caller of a handler does next.
#[derive(Clone, Copy, Debug, PartialEq, Eq, Structural)]
pub enum VcAction {
    /// Return to the interrupted code.
    Resume,
    /// Show the page to the hypervisor, then complete the given exit.
    Exchange(VcExit),
    /// Ask the hypervisor to end the guest, for the given reason.  Nothing
    /// runs after that.
    Terminate(u16),
}

/// The lower 32 bits of a register, the upper ones cleared.
pub open spec fn low32(x: u64) -> u64 {
    x & 0xffff_ffff
}

/// Which MSR access the two bytes of an instruction encode: `0F 30` is
/// WRMSR, `0F 32` is RDMSR.
pub open spec fn msr_opcode(opcode: [u8; 2]) -> Option<bool> {
    if opcode[0] == 0x0F && opcode[1] == 0x30 {
        Some(true)
    } else if opcode[0] == 0x0F && opcode[1] == 0x32 {
        Some(false)
    } else {
        None
    }
}

/// The instruction pointer `len` bytes after `rip`.  Like the processor's,
/// it goes round from the last address to the first.
pub open spec fn advance(rip: u64, len: u64) -> u64 {
    if rip + len > u64::MAX {
        (rip + len - 0x1_0000_0000_0000_0000) as u64
    } else {
        (rip + len) as u64
    }
}

/// Length of the instruction that raised the given exit.
pub open spec fn inst_len(exit: VcExit) -> u64 {
    match exit {
        VcExit::Cpuid => CPUID_INST_LEN,
        VcExit::Msr { .. } => MSR_INST_LEN,
        VcExit::Vmmcall => VMMCALL_INST_LEN,
    }
}

/// The page as the CPUID handler leaves it for the hypervisor.
pub open spec fn cpuid_request(ghcb: Ghcb, regs: CpuRegs) -> Ghcb {
    Ghcb {
        save_area: GhcbSaveArea {
            rax: regs.rax,
            rcx: regs.rcx,
            sw_exit_code: VMEXIT_CPUID,
            sw_exit_info1: 0,
            sw_exit_info2: 0,
            ..ghcb.save_area
        },
        ..ghcb
    }
}

/// The registers after CPUID, taken from the page that came back.
pub open spec fn cpuid_response(regs: CpuRegs, ghcb: Ghcb) -> CpuRegs {
    CpuRegs {
        rax: ghcb.save_area.rax,
        rbx: ghcb.save_area.rbx,
        rcx: ghcb.save_area.rcx,
        rdx: ghcb.save_area.rdx,
        rip: advance(regs.rip, CPUID_INST_LEN),
        ..regs
    }
}

/// The page as the MSR handler leaves it for the hypervisor.
pub open spec fn msr_request(ghcb: Ghcb, regs: CpuRegs, wrmsr: bool) -> Ghcb {
    Ghcb {
        save_area: GhcbSaveArea {
            rcx: low32(regs.rcx),
            rdx: if wrmsr {
                low32(regs.rdx)
            } else {
                ghcb.save_area.rdx
            },
            rax: if wrmsr {
                low32(regs.rax)
            } else {
                ghcb.save_area.rax
            },
            sw_exit_code: VMEXIT_MSR,
            sw_exit_info1: if wrmsr {
                1
            } else {
                0
            },
            sw_exit_info2: 0,
            ..ghcb.save_area
        },
        ..ghcb
    }
}

/// The registers after RDMSR or WRMSR, taken from the page that came back.
pub open spec fn msr_response(regs: CpuRegs, ghcb: Ghcb, wrmsr: bool) -> CpuRegs {
    CpuRegs {
        rdx: if wrmsr {
            regs.rdx
        } else {
            low32(ghcb.save_area.rdx)
        },
        rax: if wrmsr {
            regs.rax
        } else {
            low32(ghcb.save_area.rax)
        },
        rip: advance(regs.rip, MSR_INST_LEN),
        ..regs
    }
}

/// The page as the VMMCALL handler leaves it for the hypervisor.
pub open spec fn vmmcall_request(ghcb: Ghcb, regs: CpuRegs) -> Ghcb {
    Ghcb {
        save_area: GhcbSaveArea {
            rax: regs.rax,
            rdi: regs.rdi,
            rsi: regs.rsi,
            r8: regs.r8,
            r9: regs.r9,
            r10: regs.r10,
            r11: regs.r11,
            r12: regs.r12,
            cpl: 0,
            sw_exit_code: VMEXIT_VMMCALL,
            sw_exit_info1: 0,
            sw_exit_info2: 0,
            ..ghcb.save_area
        },
        ..ghcb
    }
}

/// The registers after VMMCALL, taken from the page that came back.
pub open spec fn vmmcall_response(regs: CpuRegs, ghcb: Ghcb) -> CpuRegs {
    CpuRegs {
        rax: ghcb.save_area.rax,
        rdi: ghcb.save_area.rdi,
        rsi: ghcb.save_area.rsi,
        r8: ghcb.save_area.r8,
        r9: ghcb.save_area.r9,
        r10: ghcb.save_area.r10,
        r11: ghcb.save_area.r11,
        r12: ghcb.save_area.r12,
        rip: advance(regs.rip, VMMCALL_INST_LEN),
        ..regs
    }
}

/// Puts the CPUID leaf that `regs` asks for in the page.
pub fn ghcb_handle_cpuid(regs: &CpuRegs, ghcb: &mut Ghcb) -> (action: VcAction)
    ensures
        *final(ghcb) == cpuid_request(*old(ghcb), *regs),
        action == VcAction::Exchange(VcExit::Cpuid),
{
    ghcb.save_area.rax = regs.rax;
    ghcb.save_area.rcx = regs.rcx;

    ghcb.save_area.sw_exit_code = VMEXIT_CPUID;
    ghcb.save_area.sw_exit_info1 = 0;
    ghcb.save_area.sw_exit_info2 = 0;

    VcAction::Exchange(VcExit::Cpuid)
}

/// Takes the result of CPUID from the page and steps over the instruction.
pub fn ghcb_complete_cpuid(regs: &mut CpuRegs, ghcb: &Ghcb) -> (action: VcAction)
    ensures
        *final(regs) == cpuid_response(*old(regs), *ghcb),
        action == VcAction::Resume,
{
    regs.rax = ghcb.save_area.rax;
    regs.rbx = ghcb.save_area.rbx;
    regs.rcx = ghcb.save_area.rcx;
    regs.rdx = ghcb.save_area.rdx;

    regs.rip = regs.rip.wrapping_add(CPUID_INST_LEN);

    VcAction::Resume
}

/// Decodes the MSR instruction at the trap's address, of which `opcode`
/// holds the first two bytes, and puts the access in the page.  Any other
/// instruction ends the guest, and the page stays as it is.
pub fn ghcb_handle_msr(regs: &CpuRegs, ghcb: &mut Ghcb, opcode: [u8; 2]) -> (action: VcAction)
    ensures
        match msr_opcode(opcode) {
            Some(wrmsr) => {
                &&& *final(ghcb) == msr_request(*old(ghcb), *regs, wrmsr)
                &&& action == VcAction::Exchange(VcExit::Msr { wrmsr })
            },
            None => {
                &&& *final(ghcb) == *old(ghcb)
                &&& action == VcAction::Terminate(TERMINATE_OPCODE)
            },
        },
{
    let wrmsr = if opcode[0] == 0x0F && opcode[1] == 0x30 {
        true  /* WRMSR */

    } else if opcode[0] == 0x0F && opcode[1] == 0x32 {
        false  /* RDMSR */

    } else {
        return VcAction::Terminate(TERMINATE_OPCODE);
    };

    ghcb.save_area.sw_exit_code = VMEXIT_MSR;
    ghcb.save_area.sw_exit_info1 = if wrmsr {
        1
    } else {
        0
    };
    ghcb.save_area.sw_exit_info2 = 0;
    ghcb.save_area.rcx = regs.rcx & 0xffff_ffff;

    if wrmsr {
        ghcb.save_area.rdx = regs.rdx & 0xffff_ffff;
        ghcb.save_area.rax = regs.rax & 0xffff_ffff;
    }

    VcAction::Exchange(VcExit::Msr { wrmsr })
}

/// Takes the result of the MSR access from the page and steps over the
/// instruction.  Where the hypervisor reports a failure, the guest ends and
/// the registers stay as they are.
pub fn ghcb_complete_msr(regs: &mut CpuRegs, ghcb: &Ghcb, wrmsr: bool) -> (action: VcAction)
    ensures
        ghcb.save_area.sw_exit_info1 == 1 ==> *final(regs) == *old(regs) && action
            == VcAction::Terminate(TERMINATE_MSR),
        ghcb.save_area.sw_exit_info1 != 1 ==> *final(regs) == msr_response(
            *old(regs),
            *ghcb,
            wrmsr,
        ) && action == VcAction::Resume,
{
    if ghcb.save_area.sw_exit_info1 == 1 {
        return VcAction::Terminate(TERMINATE_MSR);
    }

    if !wrmsr {
        regs.rdx = ghcb.save_area.rdx & 0xffff_ffff;
        regs.rax = ghcb.save_area.rax & 0xffff_ffff;
    }

    regs.rip = regs.rip.wrapping_add(MSR_INST_LEN);

    VcAction::Resume
}

/// Puts the hypercall that `regs` holds in the page.
pub fn ghcb_handle_vmmcall(regs: &CpuRegs, ghcb: &mut Ghcb) -> (action: VcAction)
    ensures
        *final(ghcb) == vmmcall_request(*old(ghcb), *regs),
        action == VcAction::Exchange(VcExit::Vmmcall),
{
    ghcb.save_area.rax = regs.rax;
    ghcb.save_area.rdi = regs.rdi;
    ghcb.save_area.rsi = regs.rsi;
    ghcb.save_area.r8 = regs.r8;
    ghcb.save_area.r9 = regs.r9;
    ghcb.save_area.r10 = regs.r10;
    ghcb.save_area.r11 = regs.r11;
    ghcb.save_area.r12 = regs.r12;

    ghcb.save_area.cpl = 0;

    ghcb.save_area.sw_exit_code = VMEXIT_VMMCALL;
    ghcb.save_area.sw_exit_info1 = 0;
    ghcb.save_area.sw_exit_info2 = 0;

    VcAction::Exchange(VcExit::Vmmcall)
}

/// Takes the result of the hypercall from the page and steps over the
/// instruction.
pub fn ghcb_complete_vmmcall(regs: &mut CpuRegs, ghcb: &Ghcb) -> (action: VcAction)
    ensures
        *final(regs) == vmmcall_response(*old(regs), *ghcb),
        action == VcAction::Resume,
{
    regs.rax = ghcb.save_area.rax;
    regs.rdi = ghcb.save_area.rdi;
    regs.rsi = ghcb.save_area.rsi;
    regs.r8 = ghcb.save_area.r8;
    regs.r9 = ghcb.save_area.r9;
    regs.r10 = ghcb.save_area.r10;
    regs.r11 = ghcb.save_area.r11;
    regs.r12 = ghcb.save_area.r12;

    regs.rip = regs.rip.wrapping_add(VMMCALL_INST_LEN);

    VcAction::Resume
}

/// What the SEV context holds, as plain values.
pub struct SevState {
    /// The SEV status as the processor reported it before the firmware
    /// started.
    pub status: u64,
    /// Physical address of the frame that is reserved for the GHCB.
    pub page: u64,
    /// The GHCB, once it is set up.
    pub ghcb: Option<Ghcb>,
}

/// The SEV state of the guest: written by [`Sev::new`] and [`setup`] while
/// the firmware starts, and by the trap handler, which fills the page.
pub struct Sev {
    status: u64,
    page: u64,
    ghcb: Option<Ghcb>,
}

impl View for Sev {
    type V = SevState;

    closed spec fn view(&self) -> SevState {
        SevState { status: self.status, page: self.page, ghcb: self.ghcb }
    }
}

/// [`setup`] as a function of the state before it: the state after it and
/// the mapping that the caller owes.
pub open spec fn setup_spec(s: SevState) -> (SevState, Option<FrameMapping>) {
    if s.status & SEV_ES_ENABLED == 0 || s.ghcb is Some {
        (s, None)
    } else {
        (
            SevState {
                ghcb: Some(Ghcb { protocol_version: GHCB_PROTOCOL_VERSION, ..Ghcb::zeroed() }),
                ..s
            },
            Some(FrameMapping { pfn: s.page / PAGE_SIZE, encrypted: false }),
        )
    }
}

/// The first half of the trap handler as a function: the state with the
/// request in the page, and what the caller does next.
pub open spec fn vc_request(s: SevState, regs: CpuRegs, error_code: u64, opcode: [u8; 2]) -> (
    SevState,
    VcAction,
) {
    match s.ghcb {
        None => (s, VcAction::Terminate(TERMINATE_NO_GHCB)),
        Some(ghcb) => {
            if error_code == VMEXIT_CPUID {
                (
                    SevState { ghcb: Some(cpuid_request(ghcb, regs)), ..s },
                    VcAction::Exchange(VcExit::Cpuid),
                )
            } else if error_code == VMEXIT_MSR {
                match msr_opcode(opcode) {
                    Some(wrmsr) => (
                        SevState { ghcb: Some(msr_request(ghcb, regs, wrmsr)), ..s },
                        VcAction::Exchange(VcExit::Msr { wrmsr }),
                    ),
                    None => (s, VcAction::Terminate(TERMINATE_OPCODE)),
                }
            } else if error_code == VMEXIT_VMMCALL {
                (
                    SevState { ghcb: Some(vmmcall_request(ghcb, regs)), ..s },
                    VcAction::Exchange(VcExit::Vmmcall),
                )
            } else {
                (s, VcAction::Resume)
            }
        },
    }
}

/// The second half of the trap handler as a function of the page that came
/// back from the hypervisor: the state with that page in it, the registers
/// that the interrupted code gets back, and what the caller does next.
pub open spec fn vc_response(s: SevState, regs: CpuRegs, exit: VcExit, reply: Ghcb) -> (
    SevState,
    CpuRegs,
    VcAction,
) {
    if s.ghcb is None {
        (s, regs, VcAction::Terminate(TERMINATE_NO_GHCB))
    } else {
        let after = SevState { ghcb: Some(reply), ..s };
        match exit {
            VcExit::Cpuid => (after, cpuid_response(regs, reply), VcAction::Resume),
            VcExit::Msr { wrmsr } => if reply.save_area.sw_exit_info1 == 1 {
                (after, regs, VcAction::Terminate(TERMINATE_MSR))
            } else {
                (after, msr_response(regs, reply, wrmsr), VcAction::Resume)
            },
            VcExit::Vmmcall => (after, vmmcall_response(regs, reply), VcAction::Resume),
        }
    }
}

impl Sev {
    /// The state of a guest that has not set up its GHCB.  `status` is the
    /// SEV status, `page` the physical address of the frame reserved for
    /// the GHCB.
    pub fn new(status: u64, page: u64) -> (sev: Sev)
        ensures
            sev@ == (SevState { status, page, ghcb: None }),
    {
        Sev { status, page, ghcb: None }
    }
}

/// The GHCB, if the guest has one.
pub fn get_ghcb(sev: &Sev) -> (ghcb: Option<&Ghcb>)
    ensures
        match ghcb {
            Some(page) => sev@.ghcb == Some(*page),
            None => sev@.ghcb is None,
        },
{
    sev.ghcb.as_ref()
}

/// Sets the GHCB up in an SEV-ES guest that has none: the page starts
/// zeroed but for the protocol version, and the caller is asked to map its
/// frame without the encryption attribute.  In any other guest nothing
/// happens.
pub fn setup(sev: &mut Sev) -> (mapping: Option<FrameMapping>)
    ensures
        (final(sev)@, mapping) == setup_spec(old(sev)@),
{
    if sev.status & SEV_ES_ENABLED == 0 {
        // No SEV-ES
        return None;
    }
    if sev.ghcb.is_some() {
        return None;
    }
    let mut ghcb = Ghcb::new();
    ghcb.protocol_version = GHCB_PROTOCOL_VERSION;
    sev.ghcb = Some(ghcb);

    Some(FrameMapping { pfn: sev.page / PAGE_SIZE, encrypted: false })
}

/// The value that the GHCB MSR holds during an exchange of the page: the
/// physical address of the page.
pub fn ghcb_call(sev: &Sev) -> (msr: u64)
    ensures
        msr == sev@.page,
{
    sev.page
}

/// The value that the GHCB MSR holds to end the guest: the tag of the
/// request, and the reason above it.
pub fn sev_es_terminate(reason: u16) -> (msr: u64)
    ensures
        msr == GHCB_EXIT_REQ | ((reason as u64) << 16),
{
    GHCB_EXIT_REQ | ((reason as u64) << 16)
}

/// Handles a VMM communication exception up to the exchange with the
/// hypervisor.  `error_code` is the exit code that the processor supplied,
/// `opcode` the two bytes at the address of the trapped instruction.
pub fn ghcb_vc_handler(sev: &mut Sev, regs: &CpuRegs, error_code: u64, opcode: [u8; 2]) -> (action:
    VcAction)
    ensures
        (final(sev)@, action) == vc_request(old(sev)@, *regs, error_code, opcode),
{
    match &mut sev.ghcb {
        None => VcAction::Terminate(TERMINATE_NO_GHCB),
        Some(ghcb) => {
            if error_code == VMEXIT_CPUID {
                ghcb_handle_cpuid(regs, ghcb)
            } else if error_code == VMEXIT_MSR {
                ghcb_handle_msr(regs, ghcb, opcode)
            } else if error_code == VMEXIT_VMMCALL {
                ghcb_handle_vmmcall(regs, ghcb)
            } else {
                VcAction::Resume
            }
        },
    }
}

/// Completes the exit that [`ghcb_vc_handler`] asked an exchange for.
/// `reply` is the page as the hypervisor left it.
pub fn ghcb_vc_complete(sev: &mut Sev, regs: &mut CpuRegs, exit: VcExit, reply: Ghcb) -> (action:
    VcAction)
    ensures
        (final(sev)@, *final(regs), action) == vc_response(old(sev)@, *old(regs), exit, reply),
{
    if sev.ghcb.is_none() {
        return VcAction::Terminate(TERMINATE_NO_GHCB);
    }
    sev.ghcb = Some(reply);
    match exit {
        VcExit::Cpuid => ghcb_complete_cpuid(regs, &reply),
        VcExit::Msr { wrmsr } => ghcb_complete_msr(regs, &reply, wrmsr),
        VcExit::Vmmcall => ghcb_complete_vmmcall(regs, &reply),
    }
}

/// Whether any SEV feature is active in this guest.
pub fn is_sev_guest(sev: &Sev) -> (active: bool)
    ensures
        active == (sev@.status != 0),
{
    sev.status != 0
}

/// Whether the registers of this guest are encrypted, so that it needs a
/// GHCB.
pub fn is_sev_es_guest(sev: &Sev) -> (active: bool)
    ensures
        active == (sev@.status & SEV_ES_ENABLED != 0),
{
    (sev.status & SEV_ES_ENABLED) != 0
}

/// Setting up twice is setting up once: the second call changes nothing
/// and asks for no mapping.
pub proof fn lemma_setup_idempotent(s: SevState)
    ensures
        setup_spec(setup_spec(s).0) == (setup_spec(s).0, None::<FrameMapping>),
{
}

/// Where the SEV-ES bit of the status is clear, [`setup`] leaves a guest
/// without GHCB as it is and asks for nothing, and in that state either half
/// of the trap handler ends the guest, whatever the trap was, and touches
/// neither the state nor the registers.
pub proof fn lemma_inert_without_sev_es(
    status: u64,
    page: u64,
    regs: CpuRegs,
    error_code: u64,
    opcode: [u8; 2],
    exit: VcExit,
    reply: Ghcb,
)
    requires
        status & SEV_ES_ENABLED == 0,
    ensures
        ({
            let s = SevState { status, page, ghcb: None };
            &&& setup_spec(s) == (s, None::<FrameMapping>)
            &&& vc_request(s, regs, error_code, opcode) == (
                s,
                VcAction::Terminate(TERMINATE_NO_GHCB),
            )
            &&& vc_response(s, regs, exit, reply) == (
                s,
                regs,
                VcAction::Terminate(TERMINATE_NO_GHCB),
            )
        }),
{
}

/// Whatever the exit, a completion that resumes the interrupted code has
/// stepped over the trapped instruction, and one that ends the guest has
/// left the registers alone.
pub proof fn lemma_complete_steps_over(s: SevState, regs: CpuRegs, exit: VcExit, reply: Ghcb)
    ensures
        ({
            let (_, back, then) = vc_response(s, regs, exit, reply);
            &&& then == VcAction::Resume ==> back.rip == advance(regs.rip, inst_len(exit))
            &&& then != VcAction::Resume ==> back == regs
            &&& regs.rip + inst_len(exit) <= u64::MAX ==> advance(regs.rip, inst_len(exit))
                == regs.rip + inst_len(exit)
        }),
{
}

/// CPUID through the page: the hypervisor is shown the two registers that
/// select the leaf and the exit code of CPUID, and whatever page comes back,
/// its four result registers are in the register frame, the instruction
/// pointer is two bytes further, and no other register has changed.
pub proof fn lemma_cpuid_exchange(s: SevState, regs: CpuRegs, opcode: [u8; 2], reply: Ghcb)
    requires
        s.ghcb is Some,
    ensures
        ({
            let (asked, action) = vc_request(s, regs, VMEXIT_CPUID, opcode);
            let (after, back, then) = vc_response(asked, regs, VcExit::Cpuid, reply);
            &&& action == VcAction::Exchange(VcExit::Cpuid)
            &&& asked.ghcb->0.save_area.rax == regs.rax
            &&& asked.ghcb->0.save_area.rcx == regs.rcx
            &&& asked.ghcb->0.save_area.sw_exit_code == VMEXIT_CPUID
            &&& asked.ghcb->0.save_area.sw_exit_info1 == 0
            &&& asked.ghcb->0.save_area.sw_exit_info2 == 0
            &&& then == VcAction::Resume
            &&& back == CpuRegs {
                rax: reply.save_area.rax,
                rbx: reply.save_area.rbx,
                rcx: reply.save_area.rcx,
                rdx: reply.save_area.rdx,
                rip: advance(regs.rip, 2),
                ..regs
            }
            &&& regs.rip + 2 <= u64::MAX ==> back.rip == regs.rip + 2
        }),
{
}

/// The two bytes at the trap decide the MSR access.  `0F 30` writes: the
/// lower halves of `rax` and `rdx` go to the page, and the register frame
/// gets nothing back.  `0F 32` reads: the page keeps its `rax` and `rdx`,
/// and their lower halves come back in the register frame.  Any other two
/// bytes end the guest with the page untouched, so that nothing is
/// exchanged.
pub proof fn lemma_msr_opcode(s: SevState, regs: CpuRegs, opcode: [u8; 2], reply: Ghcb)
    requires
        s.ghcb is Some,
        reply.save_area.sw_exit_info1 != 1,
    ensures
        ({
            let (asked, action) = vc_request(s, regs, VMEXIT_MSR, opcode);
            let area = asked.ghcb->0.save_area;
            if opcode[0] == 0x0F && opcode[1] == 0x30 {
                let back = vc_response(asked, regs, VcExit::Msr { wrmsr: true }, reply).1;
                &&& action == VcAction::Exchange(VcExit::Msr { wrmsr: true })
                &&& area.sw_exit_code == VMEXIT_MSR
                &&& area.sw_exit_info1 == 1
                &&& area.rcx == low32(regs.rcx)
                &&& area.rax == low32(regs.rax)
                &&& area.rdx == low32(regs.rdx)
                &&& back == CpuRegs { rip: advance(regs.rip, 2), ..regs }
                &&& regs.rip + 2 <= u64::MAX ==> back.rip == regs.rip + 2
            } else if opcode[0] == 0x0F && opcode[1] == 0x32 {
                let back = vc_response(asked, regs, VcExit::Msr { wrmsr: false }, reply).1;
                &&& action == VcAction::Exchange(VcExit::Msr { wrmsr: false })
                &&& area.sw_exit_code == VMEXIT_MSR
                &&& area.sw_exit_info1 == 0
                &&& area.rcx == low32(regs.rcx)
                &&& area.rax == s.ghcb->0.save_area.rax
                &&& area.rdx == s.ghcb->0.save_area.rdx
                &&& back == CpuRegs {
                    rax: low32(reply.save_area.rax),
                    rdx: low32(reply.save_area.rdx),
                    rip: advance(regs.rip, 2),
                    ..regs
                }
                &&& regs.rip + 2 <= u64::MAX ==> back.rip == regs.rip + 2
            } else {
                &&& action == VcAction::Terminate(TERMINATE_OPCODE)
                &&& asked == s
            }
        }),
{
}

} // verus!
