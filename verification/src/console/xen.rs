//! The paravirtual console: a page that the guest shares with the console
//! backend, and an event channel to wake the backend up.

use crate::arch::FrameMapping;
use crate::xen::event::EventChannel;
use crate::xen::ring::{RingState, XenRing};
use vstd::prelude::*;
use vstd::slice::slice_to_vec;

verus! {

/// Parameter of the virtual machine that holds the frame number of the
/// console page.
pub const HVM_PARAM_CONSOLE_PFN: u32 = 17;

/// Parameter of the virtual machine that holds the port of the console's
/// event channel.
pub const HVM_PARAM_CONSOLE_EVTCHN: u32 = 18;

/// Value that the producer cursor of the output ring starts from.
pub const OUT_PROD_START: u32 = 1;

/// The console page: a ring for each direction, and the cursors of both.
#[derive(Clone, Copy, Debug, PartialEq, Eq)]
pub struct XenConsInterface {
    pub in_buffer: [u8; 1024],
    pub out_buffer: [u8; 2048],
    pub in_cons: u32,
    pub in_prod: u32,
    pub out_cons: u32,
    pub out_prod: u32,
}

impl XenConsInterface {
    /// The ring on which the guest writes, as the page holds it: the
    /// output buffer and its two cursors.
    pub fn out_ring(&self) -> (ring: XenRing)
        ensures
            ring@ == (RingState {
                ring: self.out_buffer@,
                cons: self.out_cons,
                prod: self.out_prod,
            }),
    {
        XenRing {
            ring: slice_to_vec(self.out_buffer.as_slice()),
            cons: self.out_cons,
            prod: self.out_prod,
        }
    }
}

/// The console that the hypervisor offers to this guest.
#[derive(Clone, Copy, Debug, PartialEq, Eq, Structural)]
pub struct XenConsole {
    /// Frame number of the console page.
    pub pfn: u64,
    /// Port that tells the backend to look at the page.
    pub event_channel: EventChannel,
}

impl XenConsole {
    /// The console that the two parameters of the virtual machine
    /// describe.  A frame number of zero means that there is none.  The
    /// port is the lower half of its parameter.
    pub fn new(pfn: u64, evtchn: u64) -> (console: Option<Self>)
        ensures
            console == if pfn == 0 {
                None
            } else {
                Some(XenConsole { pfn, event_channel: EventChannel((evtchn & 0xffff_ffff) as u32) })
            },
    {
        if pfn == 0 {
            return None;
        }
        Some(Self { pfn, event_channel: EventChannel((evtchn & 0xffff_ffff) as u32) })
    }

    /// How the console page is to be mapped: it is shared with the
    /// backend, so it is not encrypted.
    pub fn mapping(&self) -> (mapping: FrameMapping)
        ensures
            mapping == (FrameMapping { pfn: self.pfn, encrypted: false }),
    {
        FrameMapping { pfn: self.pfn, encrypted: false }
    }
}

} // verus!
