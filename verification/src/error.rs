//! The conditions under which the core declines to execute.
use vstd::prelude::*;

verus! {

/// Why an instruction was not executed. The machine is left as it was.
#[derive(Clone, Copy, Debug, PartialEq, Eq, Structural)]
pub enum CpuError {
    /// The processor is halted, or the instruction is one that halts it. Only
    /// a reset leaves this state.
    Halted,
    /// An operand was asked of an addressing mode that cannot supply it: an
    /// address of an implied, accumulator or immediate operand, a value of an
    /// implied one, or a store to anything but the accumulator or memory.
    InvalidAddressingMode,
    /// The instruction adds or subtracts while the Decimal flag is set.
    /// Decimal arithmetic is not implemented, and no binary result is
    /// produced in its place.
    DecimalMode,
}

} // verus!
