use vstd::prelude::*;
use crate::value::Register;

verus! {

/// A fatal condition met while executing a program. No instruction recovers
/// from one: the caller of the engine decides what to do with it.
#[derive(Clone, Copy, Debug, PartialEq, Eq, Structural)]
pub enum Fault {
    /// The program counter does not index an instruction.
    NoInstruction(usize),
    /// A label index is outside the label table.
    LabelNotFound(usize),
    /// A register was read while empty.
    EmptyRegister(Register),
    /// A literal capability was handed to the generic move instruction.
    ImpossibleMove,
    /// An operand was expected to be (or to name a register holding) a `UInt`.
    ExpectedUInt,
    /// An operand was expected to be (or to name a register holding) an `Int32`.
    ExpectedInt32,
    /// An operand was expected to be (or to name a register holding) a `Label`.
    ExpectedLabel,
    /// A jump condition register did not hold a `Boolean`.
    ExpectedBoolean,
    /// A return popped something other than an `Address`.
    ExpectedAddress,
    /// A value was popped from an empty frame.
    EmptyFrame,
    /// A frame was read at an offset at or past its size.
    OffsetOutOfRange(usize),
    /// Removing a frame would leave the frame stack empty.
    FrameUnderflow,
    /// A reserved instruction that has no meaning yet was executed.
    Unimplemented,
}

} // verus!
