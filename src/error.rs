use vstd::prelude::*;

verus! {

/// The faults that end execution.
#[derive(Clone, Copy, Debug, PartialEq, Eq, Structural)]
pub enum CpuError {
    /// The opcode has no entry in the table it was looked up in.
    UnknownOpcode { opcode: u8, prefixed: bool },
    /// A value was popped off an empty call stack.
    StackUnderflow,
    /// An instruction byte was fetched past the end of the program image.
    FetchOutOfBounds { pc: u16 },
}

} // verus!
