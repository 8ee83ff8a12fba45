//! Management of the x86 segment descriptor table that switches a processor
//! from its boot-time memory model into a minimal flat configuration.
//!
//! The pieces, leaves first: [`entry`] packs and unpacks one descriptor's
//! bit layout; [`table`] builds the ordered table whose slot 0 is the
//! architectural null descriptor; [`register`] derives the (limit, base)
//! register value that points the processor at a table and models the
//! privileged install/capture operations on a core's registers, so that a
//! save/install/restore cycle is proved to leave the machine state exactly
//! where it began.

use vstd::prelude::*;

pub mod entry;
pub mod register;
pub mod table;

verus! {

/// The one error this subsystem reports: an entry or a table violates the
/// descriptor layout invariants (limit wider than 20 bits, privilege level
/// wider than 2 bits, reserved bits set, table size unrepresentable, or a
/// missing null slot). Validation happens strictly before any register value
/// is built or installed, so an invalid table never reaches the hardware.
#[derive(Clone, Copy, Debug, PartialEq, Eq, Structural)]
pub enum SegmentationError {
    InvalidDescriptor,
}

} // verus!
