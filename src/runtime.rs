use vstd::prelude::*;
use crate::call_stack::{CallStack, with_top};
use crate::fault::Fault;
use crate::frame::StackFrame;
use crate::heap::{CrossHeap, clone_handle, new_cross_heap};
use crate::instruction::Instruction;
use crate::registers::Registers;
use crate::semantics::{Machine, Step, step_spec, run_spec, uint_operand, int32_operand, label_operand};
use crate::value::{Register, Type, REGISTER_COUNT, equal};

verus! {

/// An execution engine: a program and its label table, with a program
/// counter, a register file, a frame stack and a heap handle.
pub struct AllotRuntime {
    current: usize,
    instructions: Vec<Instruction>,
    labels: Vec<usize>,
    registers: Registers,
    stack_frames: CallStack,
    heap: CrossHeap,
    is_thread: bool,
}

impl AllotRuntime {
    /// The engine's program counter, registers and frames.
    pub closed spec fn machine(&self) -> Machine {
        Machine { pc: self.current, regs: self.registers@, frames: self.stack_frames@ }
    }

    pub closed spec fn program(&self) -> Seq<Instruction> {
        self.instructions@
    }

    pub closed spec fn label_table(&self) -> Seq<usize> {
        self.labels@
    }

    /// The handle over the heap that this engine shares.
    pub closed spec fn heap_handle(&self) -> CrossHeap {
        self.heap
    }

    pub closed spec fn thread_flag(&self) -> bool {
        self.is_thread
    }

    pub open spec fn wf(&self) -> bool {
        self.machine().wf()
    }

    /// Reads an operand that must be a `UInt`, literally or in the register it
    /// names.
    pub fn get_uint(t: &Type, registers: &Registers) -> (r: Result<usize, Fault>)
        requires
            registers@.len() == REGISTER_COUNT,
        ensures
            r == uint_operand(*t, registers@),
    {
        match t {
            Type::UInt(i) => Ok(*i),
            Type::Register(reg) => match registers.get(*reg)? {
                Type::UInt(i) => Ok(i),
                _ => Err(Fault::ExpectedUInt),
            },
            _ => Err(Fault::ExpectedUInt),
        }
    }

    /// Reads an operand that must be an `Int32`, literally or in the register it
    /// names.
    pub fn get_int32(t: &Type, registers: &Registers) -> (r: Result<i32, Fault>)
        requires
            registers@.len() == REGISTER_COUNT,
        ensures
            r == int32_operand(*t, registers@),
    {
        match t {
            Type::Int32(i) => Ok(*i),
            Type::Register(reg) => match registers.get(*reg)? {
                Type::Int32(i) => Ok(i),
                _ => Err(Fault::ExpectedInt32),
            },
            _ => Err(Fault::ExpectedInt32),
        }
    }

    /// Reads an operand that must be a `Label`, literally or in the register it
    /// names.
    pub fn get_label(t: &Type, registers: &Registers) -> (r: Result<usize, Fault>)
        requires
            registers@.len() == REGISTER_COUNT,
        ensures
            r == label_operand(*t, registers@),
    {
        match t {
            Type::Label(i) => Ok(*i),
            Type::Register(reg) => match registers.get(*reg)? {
                Type::Label(i) => Ok(i),
                _ => Err(Fault::ExpectedLabel),
            },
            _ => Err(Fault::ExpectedLabel),
        }
    }

    /// An engine at the start of `instructions`, with empty registers, one
    /// empty root frame and a fresh heap.
    pub fn new(instructions: Vec<Instruction>, labels: Vec<usize>) -> (r: Self)
        ensures
            r.wf(),
            r.program() == instructions@,
            r.label_table() == labels@,
            r.machine() == (Machine {
                pc: 0,
                regs: Seq::new(REGISTER_COUNT as nat, |i: int| None::<Type>),
                frames: seq![Seq::<Type>::empty()],
            }),
            !r.thread_flag(),
    {
        AllotRuntime::with_heap(instructions, labels, new_cross_heap())
    }

    /// As `new`, over a heap shared with the other holders of `heap`.
    pub fn with_heap(instructions: Vec<Instruction>, labels: Vec<usize>, heap: CrossHeap) -> (r: Self)
        ensures
            r.wf(),
            r.program() == instructions@,
            r.label_table() == labels@,
            r.machine() == (Machine {
                pc: 0,
                regs: Seq::new(REGISTER_COUNT as nat, |i: int| None::<Type>),
                frames: seq![Seq::<Type>::empty()],
            }),
            !r.thread_flag(),
            r.heap_handle() == heap,
    {
        AllotRuntime {
            instructions,
            labels,
            registers: Registers::new(),
            stack_frames: CallStack::new(),
            heap,
            current: 0,
            is_thread: false,
        }
    }

    /// As `new`, for an engine that runs as a thread of another.
    pub fn new_thread(instructions: Vec<Instruction>, labels: Vec<usize>) -> (r: Self)
        ensures
            r.wf(),
            r.program() == instructions@,
            r.label_table() == labels@,
            r.machine() == (Machine {
                pc: 0,
                regs: Seq::new(REGISTER_COUNT as nat, |i: int| None::<Type>),
                frames: seq![Seq::<Type>::empty()],
            }),
            r.thread_flag(),
    {
        let mut s = AllotRuntime::new(instructions, labels);
        s.is_thread = true;
        s
    }
    /// Executes the instruction at the program counter.
    #[verifier::rlimit(100)]
    #[verifier::spinoff_prover]
    pub fn tick(&mut self) -> (r: Result<Step, Fault>)
        requires
            old(self).wf(),
        ensures
            final(self).wf(),
            final(self).program() == old(self).program(),
            final(self).label_table() == old(self).label_table(),
            final(self).thread_flag() == old(self).thread_flag(),
            final(self).heap_handle() == old(self).heap_handle(),
            match step_spec(old(self).program(), old(self).label_table(), old(self).machine()) {
                Ok((m, s)) => r == Ok::<Step, Fault>(s) && final(self).machine() == m,
                Err(e) => {
                    &&& r == Err::<Step, Fault>(e)
                    &&& final(self).machine().regs == old(self).machine().regs
                    &&& final(self).machine().pc == old(self).machine().pc
                },
            },
    {
        let pc = self.current;
        if pc >= self.instructions.len() {
            return Err(Fault::NoInstruction(pc));
        }
        let mut next = pc + 1;
        match &self.instructions[pc] {
            Instruction::Nop => {},
            Instruction::Op(_, _) => {
                self.current = next;
                return Ok(Step::Operate(pc));
            },
            Instruction::Mov(reg, t) => {
                let val = match t {
                    Type::Pointer(_) | Type::Label(_) | Type::Address(_) | Type::Thread(_) => {
                        return Err(Fault::ImpossibleMove);
                    },
                    Type::Register(src) => self.registers.take(*src)?,
                    _ => *t,
                };
                self.registers.insert(*reg, val);
            },
            Instruction::Cpy(reg1, reg2) => {
                let val = self.registers.get(*reg2)?;
                self.registers.insert(*reg1, val);
            },
            Instruction::Cast(_, _) => {},
            Instruction::Lea(reg, label) => {
                if *label >= self.labels.len() {
                    return Err(Fault::LabelNotFound(*label));
                }
                let val = self.labels[*label];
                self.registers.insert(*reg, Type::Label(val));
            },
            Instruction::Jmp(cond, t) => {
                let target = AllotRuntime::get_label(t, &self.registers)?;
                let jump = match cond {
                    None => true,
                    Some(reg) => match self.registers.get(*reg)? {
                        Type::Boolean(b) => b,
                        _ => return Err(Fault::ExpectedBoolean),
                    },
                };
                if jump {
                    next = target;
                }
            },
            Instruction::Ret => {
                match self.stack_frames.pop()? {
                    Type::Address(address) => next = address,
                    _ => return Err(Fault::ExpectedAddress),
                }
            },
            Instruction::Call(_) => {
                let arg = self.registers.get(Register::R9)?;
                self.current = next;
                return Ok(Step::Native(pc, arg));
            },
            Instruction::Exit(t) => {
                let code = AllotRuntime::get_int32(t, &self.registers)?;
                return Ok(Step::Halt(code));
            },
            Instruction::Push(reg) => {
                let val = self.registers.take(*reg)?;
                self.stack_frames.push(val);
            },
            Instruction::PushCpy(reg) => {
                let val = self.registers.get(*reg)?;
                self.stack_frames.push(val);
            },
            Instruction::Pop(dest) => {
                let val = self.stack_frames.pop()?;
                match dest {
                    None => {},
                    Some(reg) => self.registers.insert(*reg, val),
                }
            },
            Instruction::PopMany(t) => {
                let amount = AllotRuntime::get_uint(t, &self.registers)?;
                self.stack_frames.pop_many(amount)?;
            },
            Instruction::StackCpy(reg, t) => {
                let amount = AllotRuntime::get_uint(t, &self.registers)?;
                let val = self.stack_frames.peek_at_offset(amount)?;
                self.registers.insert(*reg, val);
            },
            Instruction::PushFrame(capacity) => self.stack_frames.push_frame(*capacity),
            Instruction::PopFrame => self.stack_frames.pop_frame()?,
            Instruction::PushOnto(_) => return Err(Fault::Unimplemented),
            Instruction::PopInto => return Err(Fault::Unimplemented),
            Instruction::ThreadStart(_) => return Err(Fault::Unimplemented),
            Instruction::ThreadJoin(_) => return Err(Fault::Unimplemented),
            Instruction::Assert(reg, t) => {
                let val = self.registers.get(*reg)?;
                match equal(val, *t) {
                    Type::Boolean(true) => {},
                    _ => return Ok(Step::Halt(-1)),
                }
            },
            Instruction::Dbg(reg) => {
                self.current = next;
                return Ok(Step::Inspect(*reg));
            },
            Instruction::Dump(bits) => {
                self.current = next;
                return Ok(Step::Dump(*bits));
            },
        }
        self.current = next;
        Ok(Step::Continue)
    }
    /// Executes at most `max_steps` instructions, stopping early at a fault
    /// or at the first step that asks anything of the driver (a halt, an
    /// operator, a native call, an inspection). Returns `Continue` when the
    /// steps ran out first.
    pub fn run(&mut self, max_steps: u64) -> (r: Result<Step, Fault>)
        requires
            old(self).wf(),
        ensures
            final(self).wf(),
            final(self).program() == old(self).program(),
            final(self).label_table() == old(self).label_table(),
            final(self).thread_flag() == old(self).thread_flag(),
            final(self).heap_handle() == old(self).heap_handle(),
            match run_spec(
                old(self).program(),
                old(self).label_table(),
                old(self).machine(),
                max_steps as nat,
            ) {
                Ok((m, s)) => r == Ok::<Step, Fault>(s) && final(self).machine() == m,
                Err(e) => r == Err::<Step, Fault>(e),
            },
    {
        let mut i: u64 = 0;
        while i < max_steps
            invariant
                i <= max_steps,
                self.wf(),
                self.program() == old(self).program(),
                self.label_table() == old(self).label_table(),
                self.thread_flag() == old(self).thread_flag(),
                self.heap_handle() == old(self).heap_handle(),
                run_spec(old(self).program(), old(self).label_table(), old(self).machine(), max_steps as nat)
                    == run_spec(self.program(), self.label_table(), self.machine(), (max_steps - i) as nat),
            decreases max_steps - i,
        {
            let step = self.tick()?;
            match step {
                Step::Continue => {},
                _ => return Ok(step),
            }
            i = i + 1;
        }
        Ok(Step::Continue)
    }

    /// Hands back the result of the native function that the last step asked
    /// for: it goes into `R10`.
    pub fn complete_native(&mut self, value: Type)
        requires
            old(self).wf(),
        ensures
            final(self).wf(),
            final(self).program() == old(self).program(),
            final(self).label_table() == old(self).label_table(),
            final(self).thread_flag() == old(self).thread_flag(),
            final(self).heap_handle() == old(self).heap_handle(),
            final(self).machine() == (Machine {
                regs: old(self).machine().regs.update(Register::R10.slot(), Some(value)),
                ..old(self).machine()
            }),
    {
        self.registers.insert(Register::R10, value);
    }

    /// Reads a register without changing it; fails when it is empty.
    pub fn register(&self, reg: Register) -> (r: Result<Type, Fault>)
        requires
            self.wf(),
        ensures
            r == crate::registers::read_spec(self.machine().regs, reg),
    {
        self.registers.get(reg)
    }

    /// Stores a value in a register, discarding what it held.
    pub fn set_register(&mut self, reg: Register, value: Type)
        requires
            old(self).wf(),
        ensures
            final(self).wf(),
            final(self).program() == old(self).program(),
            final(self).label_table() == old(self).label_table(),
            final(self).thread_flag() == old(self).thread_flag(),
            final(self).heap_handle() == old(self).heap_handle(),
            final(self).machine() == (Machine {
                regs: old(self).machine().regs.update(reg.slot(), Some(value)),
                ..old(self).machine()
            }),
    {
        self.registers.insert(reg, value);
    }

    /// The top frame, to be changed in place by a native function.
    pub fn top_frame_mut(&mut self) -> (r: &mut StackFrame)
        requires
            old(self).wf(),
        ensures
            r@ == old(self).machine().frames.last(),
            final(self).wf(),
            final(self).program() == old(self).program(),
            final(self).label_table() == old(self).label_table(),
            final(self).thread_flag() == old(self).thread_flag(),
            final(self).heap_handle() == old(self).heap_handle(),
            final(self).machine() == (Machine {
                frames: with_top(old(self).machine().frames, final(r)@),
                ..old(self).machine()
            }),
    {
        self.stack_frames.top_mut()
    }

    /// A clone of the engine's heap handle, to be forwarded to a native
    /// function.
    pub fn heap(&self) -> (r: CrossHeap)
        ensures
            r == self.heap_handle(),
    {
        clone_handle(&self.heap)
    }

    pub fn current(&self) -> (r: usize)
        ensures
            r == self.machine().pc,
    {
        self.current
    }

    pub fn instruction(&self, at: usize) -> (r: Option<&Instruction>)
        ensures
            at < self.program().len() ==> r == Some(&self.program()[at as int]),
            at >= self.program().len() ==> r is None,
    {
        if at < self.instructions.len() {
            Some(&self.instructions[at])
        } else {
            None
        }
    }

    pub fn labels(&self) -> (r: &Vec<usize>)
        ensures
            r@ == self.label_table(),
    {
        &self.labels
    }

    pub fn registers(&self) -> (r: &Registers)
        ensures
            r@ == self.machine().regs,
    {
        &self.registers
    }

    pub fn stack_frames(&self) -> (r: &CallStack)
        ensures
            r@ == self.machine().frames,
    {
        &self.stack_frames
    }

    pub fn is_thread(&self) -> (r: bool)
        ensures
            r == self.thread_flag(),
    {
        self.is_thread
    }
}

} // verus!
