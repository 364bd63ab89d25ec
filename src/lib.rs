//! Execution engine of a small register-based virtual machine: a register
//! file, a stack of call frames, a shared heap handle, and an interpreter
//! whose every step is specified by `semantics::step_spec`.

pub mod value;
pub mod fault;
pub mod registers;
pub mod frame;
pub mod call_stack;
pub mod heap;
pub mod instruction;
pub mod semantics;
pub mod runtime;

pub use call_stack::CallStack;
pub use fault::Fault;
pub use frame::StackFrame;
pub use heap::{CrossHeap, Heap};
pub use instruction::Instruction;
pub use registers::Registers;
pub use runtime::AllotRuntime;
pub use semantics::Step;
pub use value::{Register, Type};
