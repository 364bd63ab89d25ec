use vstd::prelude::*;
use crate::fault::Fault;
use crate::value::{Register, Type, REGISTER_COUNT};

verus! {

/// What reading `reg` from a register file with slots `regs` yields.
pub open spec fn read_spec(regs: Seq<Option<Type>>, reg: Register) -> Result<Type, Fault> {
    match regs[reg.slot()] {
        Some(v) => Ok(v),
        None => Err(Fault::EmptyRegister(reg)),
    }
}

/// A register file: one optional value per register.
#[derive(Debug)]
pub struct Registers {
    slots: Vec<Option<Type>>,
}

impl View for Registers {
    type V = Seq<Option<Type>>;

    closed spec fn view(&self) -> Seq<Option<Type>> {
        self.slots@
    }
}

impl Registers {
    /// A register file whose slots are all empty.
    pub fn new() -> (r: Registers)
        ensures
            r@ == Seq::new(REGISTER_COUNT as nat, |i: int| None::<Type>),
    {
        let mut slots: Vec<Option<Type>> = Vec::new();
        let mut i: usize = 0;
        while i < REGISTER_COUNT
            invariant
                i <= REGISTER_COUNT,
                slots@ == Seq::new(i as nat, |k: int| None::<Type>),
            decreases REGISTER_COUNT - i,
        {
            slots.push(None);
            i = i + 1;
            assert(slots@ =~= Seq::new(i as nat, |k: int| None::<Type>));
        }
        Registers { slots }
    }

    /// Reads a register without changing it; fails when it is empty.
    pub fn get(&self, reg: Register) -> (r: Result<Type, Fault>)
        requires
            self@.len() == REGISTER_COUNT,
        ensures
            r == read_spec(self@, reg),
    {
        match self.slots[reg.index()] {
            Some(v) => Ok(v),
            None => Err(Fault::EmptyRegister(reg)),
        }
    }

    /// Reads a register and empties it; fails when it is empty.
    pub fn take(&mut self, reg: Register) -> (r: Result<Type, Fault>)
        requires
            old(self)@.len() == REGISTER_COUNT,
        ensures
            r == read_spec(old(self)@, reg),
            final(self)@ == old(self)@.update(reg.slot(), None),
    {
        let i = reg.index();
        let r = self.get(reg);
        self.slots.set(i, None);
        r
    }

    /// Stores a value in a register, discarding what it held.
    pub fn insert(&mut self, reg: Register, value: Type)
        requires
            old(self)@.len() == REGISTER_COUNT,
        ensures
            final(self)@ == old(self)@.update(reg.slot(), Some(value)),
    {
        let i = reg.index();
        self.slots.set(i, Some(value));
    }
}

/// Once a register has been taken, reading it fails until it is written
/// again: writes to other registers leave it empty, and a write to it makes
/// it readable with the written value.
pub proof fn lemma_take_then_read(
    regs: Seq<Option<Type>>,
    reg: Register,
    other: Register,
    v: Type,
)
    requires
        regs.len() == REGISTER_COUNT,
        other != reg,
    ensures
        read_spec(regs.update(reg.slot(), None), reg) == Err::<Type, Fault>(
            Fault::EmptyRegister(reg),
        ),
        read_spec(regs.update(reg.slot(), None).update(other.slot(), Some(v)), reg)
            == Err::<Type, Fault>(Fault::EmptyRegister(reg)),
        read_spec(regs.update(reg.slot(), None).update(other.slot(), None), reg) == Err::<
            Type,
            Fault,
        >(Fault::EmptyRegister(reg)),
        read_spec(regs.update(reg.slot(), None).update(reg.slot(), Some(v)), reg) == Ok::<
            Type,
            Fault,
        >(v),
{
    crate::value::lemma_slot_injective(reg, other);
}

} // verus!
