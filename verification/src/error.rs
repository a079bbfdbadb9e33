//! What stops a machine.

use vstd::prelude::*;

verus! {

/// Why an image was not loaded, or why execution stopped for good.
#[derive(Clone, Copy, Debug, PartialEq, Eq, Structural)]
pub enum VmError {
    /// The image holds more words than the address space.
    ImageTooLarge,
    /// The instruction's operation code, given here, is not implemented.
    InvalidOpcode(u16),
    /// The trap vector, given here, names no routine.
    InvalidTrap(u16),
}

} // verus!
