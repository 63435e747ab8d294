//! Event channels: notifications that are sent by hypercall.

use crate::arch::x86_64::CpuVendor;
use crate::xen::hypercall::{
    hypercall2, hypercall_spec, trap_instruction, Hypercall, HypercallAbi, ResultRegister,
    FASTABI_MASK,
};
use vstd::prelude::*;

verus! {

/// A port on which the guest can notify the other end.
#[derive(Clone, Copy, Debug, PartialEq, Eq, Structural)]
pub struct EventChannel(pub u32);

/// Command of the operations on event channels.
pub const EVENT_CHANNEL_OP: usize = 32;

/// Operation that notifies the other end of a port.
pub const EVTCHN_SEND: usize = 4;

/// The hypercall that notifies the other end of `port`.  In the standard
/// ABI the port stands in memory at the address `port_at`; the fast ABI
/// does not look at `port_at`.
pub open spec fn send_spec(
    port: EventChannel,
    vendor: CpuVendor,
    abi: HypercallAbi,
    port_at: usize,
) -> Hypercall {
    match abi {
        HypercallAbi::Standard => hypercall_spec(
            vendor,
            EVENT_CHANNEL_OP,
            seq![EVTCHN_SEND, port_at],
        ),
        HypercallAbi::Fast => Hypercall {
            instruction: trap_instruction(vendor),
            rax: EVENT_CHANNEL_OP | FASTABI_MASK,
            rdi: Some(EVTCHN_SEND),
            rsi: Some(port.0 as usize),
            rdx: None,
            r10: None,
            r8: None,
            result: ResultRegister::Rax,
        },
    }
}

impl EventChannel {
    /// Lays out the notification of this port.  It asks for no answer:
    /// whatever the hypercall leaves in the result register is dropped.
    pub fn send(&self, vendor: CpuVendor, abi: HypercallAbi, port_at: usize) -> (call: Hypercall)
        ensures
            call == send_spec(*self, vendor, abi, port_at),
    {
        match abi {
            HypercallAbi::Standard => hypercall2(vendor, EVENT_CHANNEL_OP, [EVTCHN_SEND, port_at]),
            HypercallAbi::Fast => hypercall2(
                vendor,
                EVENT_CHANNEL_OP | FASTABI_MASK,
                [EVTCHN_SEND, self.0 as usize],
            ),
        }
    }
}

} // verus!
