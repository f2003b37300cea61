use vstd::prelude::*;

verus! {

/// Why an instruction could not be decoded or executed.
///
/// A fault is always raised before the failing instruction has changed
/// anything: the state it is reported for is the state before the step.
#[derive(Clone, Copy, Debug, PartialEq, Eq)]
pub enum Fault {
    /// A fetch, read or write addressed a byte outside the memory buffer, or
    /// an address that no 32-bit machine can form.
    Bounds,
    /// The ModRM byte selects an addressing form that is not implemented:
    /// `modval` is its two-bit mode and `rm` its three-bit base field.
    UnimplementedAddressing { modval: u8, rm: u8 },
    /// No handler exists for the opcode byte, or for the sub-opcode that the
    /// ModRM byte of a group opcode carries in `extension`.
    UnimplementedOpcode { opcode: u32, extension: Option<u8> },
}

} // verus!
