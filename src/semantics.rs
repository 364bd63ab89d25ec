use vstd::prelude::*;
use crate::call_stack::{after_pop, pop_frame_spec, with_top};
use crate::frame::{peek_spec, pop_spec};
use crate::fault::Fault;
use crate::instruction::Instruction;
use crate::registers::read_spec;
use crate::value::{Register, Type, REGISTER_COUNT, equal_spec};

verus! {

/// The mutable part of an engine's state: program counter, register slots
/// and frame stack (bottom frame first, each frame bottom value first).
pub struct Machine {
    pub pc: usize,
    pub regs: Seq<Option<Type>>,
    pub frames: Seq<Seq<Type>>,
}

impl Machine {
    /// One slot per register, and at least the root frame.
    pub open spec fn wf(self) -> bool {
        self.regs.len() == REGISTER_COUNT && self.frames.len() >= 1
    }
}

/// What one step of execution asks of its driver.
#[derive(Clone, Copy, Debug, PartialEq, Eq, Structural)]
pub enum Step {
    /// Nothing: execution can go on.
    Continue,
    /// The program halted with this code.
    Halt(i32),
    /// The `Op` instruction at this index is to be applied to the registers
    /// by the outside operator table.
    Operate(usize),
    /// The `Call` instruction at this index is to be served by the native
    /// function it names, with this argument; its result is then handed back
    /// with `complete_native`.
    Native(usize, Type),
    /// A register is to be shown; no effect on execution.
    Inspect(Register),
    /// The parts of the state selected by these bits are to be shown; no
    /// effect on execution.
    Dump(u8),
}

/// The machine `m` with its program counter set to `pc`.
pub open spec fn goto(m: Machine, pc: usize) -> Machine {
    Machine { pc, regs: m.regs, frames: m.frames }
}

/// A step that continues at `pc + 1` with the given registers and frames.
pub open spec fn advance(m: Machine, regs: Seq<Option<Type>>, frames: Seq<Seq<Type>>) -> Result<
    (Machine, Step),
    Fault,
> {
    Ok((Machine { pc: (m.pc + 1) as usize, regs, frames }, Step::Continue))
}

/// An operand that must be a `UInt`, literally or in the register it names.
pub open spec fn uint_operand(t: Type, regs: Seq<Option<Type>>) -> Result<usize, Fault> {
    match t {
        Type::UInt(i) => Ok(i),
        Type::Register(r) => match read_spec(regs, r) {
            Ok(Type::UInt(i)) => Ok(i),
            Ok(_) => Err(Fault::ExpectedUInt),
            Err(e) => Err(e),
        },
        _ => Err(Fault::ExpectedUInt),
    }
}

/// An operand that must be an `Int32`, literally or in the register it names.
pub open spec fn int32_operand(t: Type, regs: Seq<Option<Type>>) -> Result<i32, Fault> {
    match t {
        Type::Int32(i) => Ok(i),
        Type::Register(r) => match read_spec(regs, r) {
            Ok(Type::Int32(i)) => Ok(i),
            Ok(_) => Err(Fault::ExpectedInt32),
            Err(e) => Err(e),
        },
        _ => Err(Fault::ExpectedInt32),
    }
}

/// An operand that must be a `Label`, literally or in the register it names.
pub open spec fn label_operand(t: Type, regs: Seq<Option<Type>>) -> Result<usize, Fault> {
    match t {
        Type::Label(i) => Ok(i),
        Type::Register(r) => match read_spec(regs, r) {
            Ok(Type::Label(i)) => Ok(i),
            Ok(_) => Err(Fault::ExpectedLabel),
            Err(e) => Err(e),
        },
        _ => Err(Fault::ExpectedLabel),
    }
}

/// What executing the instruction at the program counter does: the next
/// machine and what is asked of the driver, or the fault met.
pub open spec fn step_spec(p: Seq<Instruction>, labels: Seq<usize>, m: Machine) -> Result<
    (Machine, Step),
    Fault,
> {
    if m.pc >= p.len() {
        Err(Fault::NoInstruction(m.pc))
    } else {
        let top = m.frames.last();
        match p[m.pc as int] {
            Instruction::Nop => advance(m, m.regs, m.frames),
            Instruction::Op(_, _) => Ok((goto(m, (m.pc + 1) as usize), Step::Operate(m.pc))),
            Instruction::Mov(d, t) => if t.is_capability() {
                Err(Fault::ImpossibleMove)
            } else {
                match t {
                    Type::Register(src) => match read_spec(m.regs, src) {
                        Ok(v) => advance(
                            m,
                            m.regs.update(src.slot(), None).update(d.slot(), Some(v)),
                            m.frames,
                        ),
                        Err(e) => Err(e),
                    },
                    _ => advance(m, m.regs.update(d.slot(), Some(t)), m.frames),
                }
            },
            Instruction::Cpy(d, s) => match read_spec(m.regs, s) {
                Ok(v) => advance(m, m.regs.update(d.slot(), Some(v)), m.frames),
                Err(e) => Err(e),
            },
            Instruction::Cast(_, _) => advance(m, m.regs, m.frames),
            Instruction::Lea(d, i) => if i < labels.len() {
                advance(m, m.regs.update(d.slot(), Some(Type::Label(labels[i as int]))), m.frames)
            } else {
                Err(Fault::LabelNotFound(i))
            },
            Instruction::Jmp(cond, t) => match label_operand(t, m.regs) {
                Err(e) => Err(e),
                Ok(target) => match cond {
                    None => Ok((goto(m, target), Step::Continue)),
                    Some(c) => match read_spec(m.regs, c) {
                        Ok(Type::Boolean(b)) => Ok(
                            (goto(m, if b { target } else { (m.pc + 1) as usize }), Step::Continue),
                        ),
                        Ok(_) => Err(Fault::ExpectedBoolean),
                        Err(e) => Err(e),
                    },
                },
            },
            Instruction::Ret => match pop_spec(top) {
                Ok(Type::Address(a)) => Ok(
                    (Machine { pc: a, regs: m.regs, frames: after_pop(m.frames) }, Step::Continue),
                ),
                Ok(_) => Err(Fault::ExpectedAddress),
                Err(e) => Err(e),
            },
            Instruction::Call(_) => match read_spec(m.regs, Register::R9) {
                Ok(arg) => Ok((goto(m, (m.pc + 1) as usize), Step::Native(m.pc, arg))),
                Err(e) => Err(e),
            },
            Instruction::Exit(t) => match int32_operand(t, m.regs) {
                Ok(code) => Ok((m, Step::Halt(code))),
                Err(e) => Err(e),
            },
            Instruction::Push(s) => match read_spec(m.regs, s) {
                Ok(v) => advance(m, m.regs.update(s.slot(), None), with_top(m.frames, top.push(v))),
                Err(e) => Err(e),
            },
            Instruction::PushCpy(s) => match read_spec(m.regs, s) {
                Ok(v) => advance(m, m.regs, with_top(m.frames, top.push(v))),
                Err(e) => Err(e),
            },
            Instruction::Pop(dest) => match pop_spec(top) {
                Ok(v) => match dest {
                    Some(d) => advance(m, m.regs.update(d.slot(), Some(v)), after_pop(m.frames)),
                    None => advance(m, m.regs, after_pop(m.frames)),
                },
                Err(e) => Err(e),
            },
            Instruction::PopMany(t) => match uint_operand(t, m.regs) {
                Ok(n) => if n <= top.len() {
                    advance(m, m.regs, with_top(m.frames, top.subrange(0, top.len() - n)))
                } else {
                    Err(Fault::EmptyFrame)
                },
                Err(e) => Err(e),
            },
            Instruction::StackCpy(d, t) => match uint_operand(t, m.regs) {
                Ok(n) => match peek_spec(top, n as int) {
                    Ok(v) => advance(m, m.regs.update(d.slot(), Some(v)), m.frames),
                    Err(e) => Err(e),
                },
                Err(e) => Err(e),
            },
            Instruction::PushFrame(_) => advance(m, m.regs, m.frames.push(Seq::empty())),
            Instruction::PopFrame => match pop_frame_spec(m.frames) {
                Ok(frames) => advance(m, m.regs, frames),
                Err(e) => Err(e),
            },
            Instruction::PushOnto(_) => Err(Fault::Unimplemented),
            Instruction::PopInto => Err(Fault::Unimplemented),
            Instruction::ThreadStart(_) => Err(Fault::Unimplemented),
            Instruction::ThreadJoin(_) => Err(Fault::Unimplemented),
            Instruction::Assert(r, t) => match read_spec(m.regs, r) {
                Ok(v) => if equal_spec(v, t) == Type::Boolean(true) {
                    advance(m, m.regs, m.frames)
                } else {
                    Ok((m, Step::Halt(-1i32)))
                },
                Err(e) => Err(e),
            },
            Instruction::Dbg(r) => Ok((goto(m, (m.pc + 1) as usize), Step::Inspect(r))),
            Instruction::Dump(bits) => Ok((goto(m, (m.pc + 1) as usize), Step::Dump(bits))),
        }
    }
}

/// What running at most `fuel` steps does: it stops at the first fault, or
/// at the first step that asks anything of the driver, or when the fuel is
/// spent (reporting `Continue`).
pub open spec fn run_spec(p: Seq<Instruction>, labels: Seq<usize>, m: Machine, fuel: nat) -> Result<
    (Machine, Step),
    Fault,
>
    decreases fuel,
{
    if fuel == 0 {
        Ok((m, Step::Continue))
    } else {
        match step_spec(p, labels, m) {
            Ok((m2, s)) => if s is Continue {
                run_spec(p, labels, m2, (fuel - 1) as nat)
            } else {
                Ok((m2, s))
            },
            Err(e) => Err(e),
        }
    }
}

/// Every instruction of `p` is a move or an exit.
pub open spec fn only_moves_and_exits(p: Seq<Instruction>) -> bool {
    forall|i: int| 0 <= i < p.len() ==> (#[trigger] p[i] is Mov || p[i] is Exit)
}

/// No instruction of `p` from `from` up to (not including) `to` is an exit.
pub open spec fn no_exit_between(p: Seq<Instruction>, from: int, to: int) -> bool {
    forall|j: int| from <= j < to ==> !(#[trigger] p[j] is Exit)
}

/// A program made only of moves and exits, run with a budget of more steps
/// than it has instructions left, never runs out of steps. It halts at the
/// first `Exit` at or after the program counter, with exactly the code that
/// the exit's operand resolves to there. Otherwise it faults, and only for
/// one of these reasons: an empty register was read, an operand was not an
/// `Int32`, a capability was moved, or the program ended with no exit.
pub proof fn lemma_moves_and_exits_halt(p: Seq<Instruction>, labels: Seq<usize>, m: Machine, fuel: nat)
    requires
        only_moves_and_exits(p),
        p.len() <= usize::MAX,
        m.wf(),
        m.pc <= p.len(),
        fuel > p.len() - m.pc,
    ensures
        match run_spec(p, labels, m, fuel) {
            Ok((m2, s)) => {
                &&& m.pc <= m2.pc < p.len()
                &&& p[m2.pc as int] is Exit
                &&& no_exit_between(p, m.pc as int, m2.pc as int)
                &&& s is Halt
                &&& int32_operand(p[m2.pc as int]->Exit_0, m2.regs) == Ok::<i32, Fault>(s->Halt_0)
            },
            Err(e) => {
                ||| e is EmptyRegister
                ||| e == Fault::ExpectedInt32
                ||| e == Fault::ImpossibleMove
                ||| (e == Fault::NoInstruction(p.len() as usize) && no_exit_between(
                    p,
                    m.pc as int,
                    p.len() as int,
                ))
            },
        },
    decreases fuel,
{
    if m.pc < p.len() {
        assert(p[m.pc as int] is Mov || p[m.pc as int] is Exit);
        match step_spec(p, labels, m) {
            Ok((m2, s)) => {
                if s is Continue {
                    assert(m2.pc == m.pc + 1 && m2.wf());
                    lemma_moves_and_exits_halt(p, labels, m2, (fuel - 1) as nat);
                }
            },
            Err(_) => {},
        }
    }
}

/// An instruction that stores a value in register `r` when it executes.
pub open spec fn writes_register(i: Instruction, r: Register) -> bool {
    match i {
        Instruction::Mov(d, _) => d == r,
        Instruction::Cpy(d, _) => d == r,
        Instruction::Lea(d, _) => d == r,
        Instruction::Pop(Some(d)) => d == r,
        Instruction::StackCpy(d, _) => d == r,
        _ => false,
    }
}

/// An instruction that must read register `r` before anything else can go
/// wrong.
pub open spec fn reads_register_first(i: Instruction, r: Register) -> bool {
    match i {
        Instruction::Mov(_, Type::Register(s)) => s == r,
        Instruction::Cpy(_, s) => s == r,
        Instruction::Push(s) => s == r,
        Instruction::PushCpy(s) => s == r,
        Instruction::Assert(s, _) => s == r,
        Instruction::Exit(Type::Register(s)) => s == r,
        Instruction::Call(_) => r == Register::R9,
        _ => false,
    }
}

/// An empty register stays empty until it is written: a step by an
/// instruction that does not write it leaves it empty, and a step by one that
/// reads it faults. Taking a register empties it (see `Registers::take`), so
/// after a take every later read faults until the next write.
pub proof fn lemma_empty_register_until_written(
    p: Seq<Instruction>,
    labels: Seq<usize>,
    m: Machine,
    r: Register,
)
    requires
        m.wf(),
        m.pc < p.len(),
        m.regs[r.slot()] is None,
    ensures
        !writes_register(p[m.pc as int], r) ==> match step_spec(p, labels, m) {
            Ok((m2, _)) => m2.regs[r.slot()] is None && m2.regs.len() == m.regs.len(),
            Err(_) => true,
        },
        reads_register_first(p[m.pc as int], r) ==> step_spec(p, labels, m) == Err::<
            (Machine, Step),
            Fault,
        >(Fault::EmptyRegister(r)),
{
    match p[m.pc as int] {
        Instruction::Mov(d, _) => crate::value::lemma_slot_injective(r, d),
        Instruction::Cpy(d, _) => crate::value::lemma_slot_injective(r, d),
        Instruction::Lea(d, _) => crate::value::lemma_slot_injective(r, d),
        Instruction::Pop(Some(d)) => crate::value::lemma_slot_injective(r, d),
        Instruction::StackCpy(d, _) => crate::value::lemma_slot_injective(r, d),
        Instruction::Push(s) => crate::value::lemma_slot_injective(r, s),
        _ => {},
    }
}

/// A return pops the top frame's top value: an `Address` becomes the program
/// counter, and anything else (or an empty frame) is a fault.
pub proof fn lemma_ret(p: Seq<Instruction>, labels: Seq<usize>, m: Machine)
    requires
        m.wf(),
        m.pc < p.len(),
        p[m.pc as int] is Ret,
    ensures
        m.frames.last().len() > 0 && m.frames.last().last() is Address ==> step_spec(p, labels, m)
            == Ok::<(Machine, Step), Fault>(
            (
                Machine {
                    pc: m.frames.last().last()->Address_0,
                    regs: m.regs,
                    frames: after_pop(m.frames),
                },
                Step::Continue,
            ),
        ),
        !(m.frames.last().len() > 0 && m.frames.last().last() is Address) ==> step_spec(
            p,
            labels,
            m,
        ) is Err,
{
}

/// An assertion whose comparison gives `Boolean(true)` just moves on; any
/// other comparison ends the run with code -1.
pub proof fn lemma_assert(
    p: Seq<Instruction>,
    labels: Seq<usize>,
    m: Machine,
    reg: Register,
    expected: Type,
    v: Type,
    fuel: nat,
)
    requires
        m.wf(),
        m.pc < p.len(),
        p[m.pc as int] == Instruction::Assert(reg, expected),
        read_spec(m.regs, reg) == Ok::<Type, Fault>(v),
        fuel > 0,
    ensures
        equal_spec(v, expected) == Type::Boolean(true) ==> step_spec(p, labels, m) == Ok::<
            (Machine, Step),
            Fault,
        >((goto(m, (m.pc + 1) as usize), Step::Continue)),
        equal_spec(v, expected) != Type::Boolean(true) ==> run_spec(p, labels, m, fuel) == Ok::<
            (Machine, Step),
            Fault,
        >((m, Step::Halt(-1i32))),
{
}

/// Moving a literal capability into a register is a fault, whatever the
/// registers hold.
pub proof fn lemma_move_capability(
    p: Seq<Instruction>,
    labels: Seq<usize>,
    m: Machine,
    dest: Register,
    t: Type,
    fuel: nat,
)
    requires
        m.pc < p.len(),
        p[m.pc as int] == Instruction::Mov(dest, t),
        t.is_capability(),
        fuel > 0,
    ensures
        step_spec(p, labels, m) == Err::<(Machine, Step), Fault>(Fault::ImpossibleMove),
        run_spec(p, labels, m, fuel) == Err::<(Machine, Step), Fault>(Fault::ImpossibleMove),
{
}

} // verus!
