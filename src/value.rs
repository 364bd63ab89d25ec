use vstd::prelude::*;

verus! {

/// Number of register slots in a register file.
pub const REGISTER_COUNT: usize = 11;

/// A register identifier. `R9` carries the argument of a native call and
/// `R10` receives its return value.
#[derive(Clone, Copy, Debug, PartialEq, Eq, Structural)]
pub enum Register {
    R0,
    R1,
    R2,
    R3,
    R4,
    R5,
    R6,
    R7,
    R8,
    R9,
    R10,
}

impl Register {
    /// The slot of this register in a register file.
    pub open spec fn slot(self) -> int {
        match self {
            Register::R0 => 0,
            Register::R1 => 1,
            Register::R2 => 2,
            Register::R3 => 3,
            Register::R4 => 4,
            Register::R5 => 5,
            Register::R6 => 6,
            Register::R7 => 7,
            Register::R8 => 8,
            Register::R9 => 9,
            Register::R10 => 10,
        }
    }

    pub fn index(&self) -> (r: usize)
        ensures
            r as int == self.slot(),
            r < REGISTER_COUNT,
    {
        match self {
            Register::R0 => 0,
            Register::R1 => 1,
            Register::R2 => 2,
            Register::R3 => 3,
            Register::R4 => 4,
            Register::R5 => 5,
            Register::R6 => 6,
            Register::R7 => 7,
            Register::R8 => 8,
            Register::R9 => 9,
            Register::R10 => 10,
        }
    }
}

/// Two distinct registers occupy distinct slots.
pub proof fn lemma_slot_injective(a: Register, b: Register)
    ensures
        a.slot() == b.slot() <==> a == b,
        0 <= a.slot() < REGISTER_COUNT,
{
}

/// The machine's tagged value.
///
/// `Pointer`, `Label`, `Address` and `Thread` are capabilities: the generic
/// move instruction refuses them as literal operands.
#[derive(Clone, Copy, Debug, PartialEq, Eq, Structural)]
pub enum Type {
    Nop,
    Boolean(bool),
    Int32(i32),
    UInt(usize),
    Pointer(usize),
    Label(usize),
    Address(usize),
    Register(Register),
    Thread(usize),
}

impl Type {
    /// Whether the value may only be produced by the machine itself.
    pub open spec fn is_capability(self) -> bool {
        self is Pointer || self is Label || self is Address || self is Thread
    }
}

/// The result of comparing two values for equality: `Boolean` when both have
/// the same variant, `Nop` when the variants differ and nothing can be said.
pub open spec fn equal_spec(a: Type, b: Type) -> Type {
    if variant_code(a) == variant_code(b) {
        Type::Boolean(a == b)
    } else {
        Type::Nop
    }
}

pub open spec fn variant_code(t: Type) -> int {
    match t {
        Type::Nop => 0,
        Type::Boolean(_) => 1,
        Type::Int32(_) => 2,
        Type::UInt(_) => 3,
        Type::Pointer(_) => 4,
        Type::Label(_) => 5,
        Type::Address(_) => 6,
        Type::Register(_) => 7,
        Type::Thread(_) => 8,
    }
}

/// Compares two values for equality.
pub fn equal(a: Type, b: Type) -> (r: Type)
    ensures
        r == equal_spec(a, b),
{
    match (a, b) {
        (Type::Nop, Type::Nop) => Type::Boolean(true),
        (Type::Boolean(x), Type::Boolean(y)) => Type::Boolean(x == y),
        (Type::Int32(x), Type::Int32(y)) => Type::Boolean(x == y),
        (Type::UInt(x), Type::UInt(y)) => Type::Boolean(x == y),
        (Type::Pointer(x), Type::Pointer(y)) => Type::Boolean(x == y),
        (Type::Label(x), Type::Label(y)) => Type::Boolean(x == y),
        (Type::Address(x), Type::Address(y)) => Type::Boolean(x == y),
        (Type::Register(x), Type::Register(y)) => Type::Boolean(x == y),
        (Type::Thread(x), Type::Thread(y)) => Type::Boolean(x == y),
        _ => Type::Nop,
    }
}

} // verus!
