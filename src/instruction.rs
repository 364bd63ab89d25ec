use vstd::prelude::*;
use crate::value::{Register, Type};

verus! {

/// One instruction of a program. Programs are never changed once loaded.
#[derive(Clone, Debug, PartialEq)]
pub enum Instruction {
    /// Does nothing.
    Nop,
    /// Applies an operator of the outside operator table, by number, to
    /// the listed registers.
    Op(u16, Vec<Register>),
    /// Moves a literal, or takes a register's value, into a register.
    Mov(Register, Type),
    /// Copies the second register into the first.
    Cpy(Register, Register),
    /// Reserved; currently does nothing.
    Cast(Register, Type),
    /// Writes the address that a label index resolves to into a register.
    Lea(Register, usize),
    /// Jumps to a label, when the optional condition register holds true.
    Jmp(Option<Register>, Type),
    /// Returns to the address popped from the top frame.
    Ret,
    /// Calls a native function by name with `R9` as argument; the result
    /// goes into `R10`.
    Call(String),
    /// Halts with a 32-bit exit code.
    Exit(Type),
    /// Takes a register's value and pushes it on the top frame.
    Push(Register),
    /// Pushes a copy of a register's value on the top frame.
    PushCpy(Register),
    /// Pops the top frame's top value, into a register if one is given.
    Pop(Option<Register>),
    /// Pops and discards a number of values from the top frame.
    PopMany(Type),
    /// Copies the value at an offset below the top of the top frame into a
    /// register.
    StackCpy(Register, Type),
    /// Pushes a new frame with a capacity hint.
    PushFrame(usize),
    /// Removes the top frame.
    PopFrame,
    /// Reserved for concurrent execution.
    PushOnto(Register),
    /// Reserved for concurrent execution.
    PopInto,
    /// Reserved for concurrent execution.
    ThreadStart(Type),
    /// Reserved for concurrent execution.
    ThreadJoin(Register),
    /// Halts with code -1 unless the register equals the value.
    Assert(Register, Type),
    /// Asks the driver to show a register; no effect on execution.
    Dbg(Register),
    /// Asks the driver to show the parts of the state selected by the bits.
    Dump(u8),
}

} // verus!
