//! Where the firmware's messages go.

pub mod xen;
