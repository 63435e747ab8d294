//! Guest-side communication primitives for a paravirtualised boot firmware.
//!
//! The crate holds the decisions of the firmware's channels to the
//! hypervisor as functions on plain values, each with a contract that says
//! what it returns:
//!
//! - [`xen::hypercall`] lays out the registers of a hypercall and picks the
//!   trapping instruction of the processor at hand;
//! - [`xen::event`] notifies the other end of an event channel;
//! - [`xen::ring`] is the producer side of a shared byte ring;
//! - [`arch::x86_64::sev`] runs the request-response protocol of an
//!   encrypted guest over its communication block, and
//!   [`arch::x86_64::sev::wire`] fixes the bytes of that block;
//! - [`arch::x86_64::mm`] fills the page tables and maps single frames.
//!
//! Whoever owns the hardware performs what these functions decide: it
//! executes the trapping instruction, copies bytes to shared memory, and
//! shows the communication block to the hypervisor.

pub mod arch;
pub mod bootinfo;
pub mod common;
pub mod console;
pub mod layout;
pub mod pvh;
pub mod xen;
