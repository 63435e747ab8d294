//! Transports that reach the hypervisor from ordinary guest code.

use crate::arch::x86_64::CpuVendor;
use crate::xen::hypercall::{
    hypercall2, hypercall_spec, native_hypercall, trap_instruction, Hypercall, HypercallAbi,
    ResultRegister, FASTABI_MASK,
};
use vstd::prelude::*;

pub mod event;
pub mod hypercall;
pub mod ring;

verus! {

/// Command of the operations on the parameters of the virtual machine.
pub const HVM_OP: usize = 34;

/// Operation that reads one parameter.
pub const HVMOP_GET_PARAM: usize = 1;

/// The domain that asks.
pub const DOMID_SELF: u16 = 0x7FF0;

/// Argument of [`HVMOP_GET_PARAM`] in the standard ABI.  The hypervisor
/// fills in `value`.
#[derive(Clone, Copy, Debug, PartialEq, Eq, Structural)]
pub struct XenHvmParam {
    pub domid: u16,
    pub _pad: u16,
    pub index: u32,
    pub value: u64,
}

/// The hypercall that reads the parameter `index`.  In the standard ABI the
/// argument stands in memory at the address `param_at`; the fast ABI does
/// not look at `param_at`, and the value comes back in `r9`.
pub open spec fn hvm_get_param_spec(
    vendor: CpuVendor,
    abi: HypercallAbi,
    index: u32,
    param_at: usize,
) -> Hypercall {
    match abi {
        HypercallAbi::Standard => hypercall_spec(vendor, HVM_OP, seq![HVMOP_GET_PARAM, param_at]),
        HypercallAbi::Fast => Hypercall {
            instruction: trap_instruction(vendor),
            rax: HVM_OP | FASTABI_MASK,
            rdi: Some(HVMOP_GET_PARAM),
            rsi: Some(DOMID_SELF as usize),
            rdx: None,
            r10: None,
            r8: Some(index as usize),
            result: ResultRegister::R9,
        },
    }
}

impl XenHvmParam {
    /// The argument that asks for the parameter `index` of this domain.
    pub fn new(index: u32) -> (param: XenHvmParam)
        ensures
            param == (XenHvmParam { domid: DOMID_SELF, _pad: 0, index, value: 0 }),
    {
        XenHvmParam { domid: DOMID_SELF, _pad: 0, index, value: 0 }
    }
}

/// Lays out the hypercall that reads the parameter `index`.
pub fn hvm_get_param(vendor: CpuVendor, abi: HypercallAbi, index: u32, param_at: usize) -> (call:
    Hypercall)
    ensures
        call == hvm_get_param_spec(vendor, abi, index, param_at),
{
    match abi {
        HypercallAbi::Standard => hypercall2(vendor, HVM_OP, [HVMOP_GET_PARAM, param_at]),
        HypercallAbi::Fast => Hypercall {
            instruction: native_hypercall(vendor),
            rax: HVM_OP | FASTABI_MASK,
            rdi: Some(HVMOP_GET_PARAM),
            rsi: Some(DOMID_SELF as usize),
            rdx: None,
            r10: None,
            r8: Some(index as usize),
            result: ResultRegister::R9,
        },
    }
}

/// The parameter's value once the hypercall of [`hvm_get_param`] has
/// returned: `param` is the argument as the hypervisor left it, `output`
/// what the result register of the call held.
pub fn hvm_param_value(abi: HypercallAbi, param: &XenHvmParam, output: usize) -> (value: u64)
    ensures
        value == match abi {
            HypercallAbi::Standard => param.value,
            HypercallAbi::Fast => output as u64,
        },
{
    match abi {
        HypercallAbi::Standard => param.value,
        HypercallAbi::Fast => output as u64,
    }
}

} // verus!
