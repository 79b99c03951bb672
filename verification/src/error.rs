//! What can go wrong.

use vstd::prelude::*;

verus! {

/// Why a load or an instruction was refused.
///
/// A refused operation leaves the machine exactly as it was.
#[derive(Clone, Copy, Debug, PartialEq, Eq, Structural)]
pub enum Chip8Error {
    /// `CALL` with all sixteen return slots taken.
    StackOverflow,
    /// `RET` with no return address on the stack.
    StackUnderflow,
    /// An encoding that is recognised but deliberately not carried out; holds
    /// the opcode.
    UnimplementedOpcode(u16),
    /// An encoding that names no instruction; holds the opcode and the
    /// distance of the program counter from the entry point.
    UnknownOpcode(u16, u16),
    /// A program that does not fit between the entry point and the end of
    /// memory.
    OutOfBoundsLoad,
    /// An instruction that would read or write past the end of memory; holds
    /// the address at which the access starts.
    OutOfBoundsAccess(u16),
}

} // verus!
