//! The register convention of a hypercall.
//!
//! A hypercall is a trapping instruction executed with the command in
//! `rax` and up to five arguments in `rdi`, `rsi`, `rdx`, `r10` and `r8`;
//! the hypervisor leaves its result in `rax`.  The functions here lay the
//! registers out and pick the instruction.  Executing the [`Hypercall`] is
//! left to the caller.

use crate::arch::x86_64::{amd_string, vendor_spec, vendor_string, CpuVendor};
use vstd::prelude::*;

verus! {

/// Bit of the command that selects the fast variant of the ABI, in which
/// the arguments of an operation travel in registers, not in memory.
pub const FASTABI_MASK: usize = 0x40000000;

/// The instruction that traps into the hypervisor.
#[derive(Clone, Copy, Debug, PartialEq, Eq, Structural)]
pub enum TrapInstruction {
    /// `vmcall`, for Intel processors.
    Vmcall,
    /// `vmmcall`, for AMD processors.
    Vmmcall,
}

/// The register in which the hypervisor leaves what the caller asked for.
#[derive(Clone, Copy, Debug, PartialEq, Eq, Structural)]
pub enum ResultRegister {
    Rax,
    R9,
}

/// One of the two encodings of an operation's arguments.
#[derive(Clone, Copy, Debug, PartialEq, Eq, Structural)]
pub enum HypercallAbi {
    /// The operation's arguments are a structure in memory, and the
    /// hypercall carries its address.
    Standard,
    /// The operation's arguments are registers, and the command carries
    /// [`FASTABI_MASK`].
    Fast,
}

/// A hypercall that is ready to be executed: the instruction, and what each
/// register holds when it executes.  A register that is `None` is not
/// loaded, and what it holds afterwards is not to be relied on.
#[derive(Clone, Copy, Debug, PartialEq, Eq, Structural)]
pub struct Hypercall {
    pub instruction: TrapInstruction,
    pub rax: usize,
    pub rdi: Option<usize>,
    pub rsi: Option<usize>,
    pub rdx: Option<usize>,
    pub r10: Option<usize>,
    pub r8: Option<usize>,
    pub result: ResultRegister,
}

/// The trapping instruction of a vendor's processors.
pub open spec fn trap_instruction(vendor: CpuVendor) -> TrapInstruction {
    match vendor {
        CpuVendor::Intel => TrapInstruction::Vmcall,
        CpuVendor::Amd => TrapInstruction::Vmmcall,
    }
}

/// Argument `i` of `args`, if there are that many.
pub open spec fn argument(args: Seq<usize>, i: int) -> Option<usize> {
    if i < args.len() {
        Some(args[i])
    } else {
        None
    }
}

/// The hypercall `cmd` with the arguments `args`, of which the first five
/// count.
pub open spec fn hypercall_spec(vendor: CpuVendor, cmd: usize, args: Seq<usize>) -> Hypercall {
    Hypercall {
        instruction: trap_instruction(vendor),
        rax: cmd,
        rdi: argument(args, 0),
        rsi: argument(args, 1),
        rdx: argument(args, 2),
        r10: argument(args, 3),
        r8: argument(args, 4),
        result: ResultRegister::Rax,
    }
}

/// Picks the trapping instruction for the processor at hand.
pub fn native_hypercall(vendor: CpuVendor) -> (instruction: TrapInstruction)
    ensures
        instruction == trap_instruction(vendor),
{
    match vendor {
        CpuVendor::Intel => TrapInstruction::Vmcall,
        CpuVendor::Amd => TrapInstruction::Vmmcall,
    }
}

/// Lays out the hypercall `cmd` with five arguments.
pub fn hypercall5(vendor: CpuVendor, cmd: usize, param: [usize; 5]) -> (call: Hypercall)
    ensures
        call == hypercall_spec(vendor, cmd, param@),
{
    Hypercall {
        instruction: native_hypercall(vendor),
        rax: cmd,
        rdi: Some(param[0]),
        rsi: Some(param[1]),
        rdx: Some(param[2]),
        r10: Some(param[3]),
        r8: Some(param[4]),
        result: ResultRegister::Rax,
    }
}

/// Lays out the hypercall `cmd` with four arguments.
pub fn hypercall4(vendor: CpuVendor, cmd: usize, param: [usize; 4]) -> (call: Hypercall)
    ensures
        call == hypercall_spec(vendor, cmd, param@),
{
    Hypercall {
        instruction: native_hypercall(vendor),
        rax: cmd,
        rdi: Some(param[0]),
        rsi: Some(param[1]),
        rdx: Some(param[2]),
        r10: Some(param[3]),
        r8: None,
        result: ResultRegister::Rax,
    }
}

/// Lays out the hypercall `cmd` with three arguments.
pub fn hypercall3(vendor: CpuVendor, cmd: usize, param: [usize; 3]) -> (call: Hypercall)
    ensures
        call == hypercall_spec(vendor, cmd, param@),
{
    Hypercall {
        instruction: native_hypercall(vendor),
        rax: cmd,
        rdi: Some(param[0]),
        rsi: Some(param[1]),
        rdx: Some(param[2]),
        r10: None,
        r8: None,
        result: ResultRegister::Rax,
    }
}

/// Lays out the hypercall `cmd` with two arguments.
pub fn hypercall2(vendor: CpuVendor, cmd: usize, param: [usize; 2]) -> (call: Hypercall)
    ensures
        call == hypercall_spec(vendor, cmd, param@),
{
    Hypercall {
        instruction: native_hypercall(vendor),
        rax: cmd,
        rdi: Some(param[0]),
        rsi: Some(param[1]),
        rdx: None,
        r10: None,
        r8: None,
        result: ResultRegister::Rax,
    }
}

/// Lays out the hypercall `cmd` with one argument.
pub fn hypercall1(vendor: CpuVendor, cmd: usize, param: usize) -> (call: Hypercall)
    ensures
        call == hypercall_spec(vendor, cmd, seq![param]),
{
    Hypercall {
        instruction: native_hypercall(vendor),
        rax: cmd,
        rdi: Some(param),
        rsi: None,
        rdx: None,
        r10: None,
        r8: None,
        result: ResultRegister::Rax,
    }
}

/// Lays out the hypercall `cmd` without arguments.
pub fn hypercall0(vendor: CpuVendor, cmd: usize) -> (call: Hypercall)
    ensures
        call == hypercall_spec(vendor, cmd, Seq::<usize>::empty()),
{
    Hypercall {
        instruction: native_hypercall(vendor),
        rax: cmd,
        rdi: None,
        rsi: None,
        rdx: None,
        r10: None,
        r8: None,
        result: ResultRegister::Rax,
    }
}

/// The identification string of the processor decides how every hypercall
/// traps: by `vmmcall` where the string is AMD's, by `vmcall` for any other
/// string, whatever the command and its arguments.
pub proof fn lemma_vendor_selects_instruction(
    ebx: u32,
    edx: u32,
    ecx: u32,
    cmd: usize,
    args: Seq<usize>,
)
    ensures
        hypercall_spec(vendor_spec(ebx, edx, ecx), cmd, args).instruction == if vendor_string(
            ebx,
            edx,
            ecx,
        ) == amd_string() {
            TrapInstruction::Vmmcall
        } else {
            TrapInstruction::Vmcall
        },
{
}

} // verus!
