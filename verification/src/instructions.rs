//! The values a register can hold and the instructions that act on them.

use vstd::prelude::*;

verus! {

/// Index of a register in the register file.
pub type Register = usize;

/// The kind of a register value: which numeric type its payload has.
#[derive(Debug, Clone, Copy, PartialEq, Eq, Structural)]
pub enum Kind {
    Empty,
    U8,
    I8,
    U16,
    I16,
    U32,
    I32,
    U64,
    I64,
    F32,
    F64,
}

impl Kind {
    /// True for the eight integer kinds.
    pub open spec fn is_integer(self) -> bool {
        !(self is Empty) && !(self is F32) && !(self is F64)
    }

    /// True for the two floating kinds.
    pub open spec fn is_float(self) -> bool {
        self is F32 || self is F64
    }

    /// Smallest number an integer kind can hold (0 for the other kinds).
    pub open spec fn min(self) -> int {
        match self {
            Kind::I8 => -0x80,
            Kind::I16 => -0x8000,
            Kind::I32 => -0x8000_0000,
            Kind::I64 => -0x8000_0000_0000_0000,
            _ => 0,
        }
    }

    /// Largest number an integer kind can hold; for a floating kind, the
    /// largest bit pattern.
    pub open spec fn max(self) -> int {
        match self {
            Kind::Empty => 0,
            Kind::U8 => 0xff,
            Kind::I8 => 0x7f,
            Kind::U16 => 0xffff,
            Kind::I16 => 0x7fff,
            Kind::U32 => 0xffff_ffff,
            Kind::I32 => 0x7fff_ffff,
            Kind::U64 => 0xffff_ffff_ffff_ffff,
            Kind::I64 => 0x7fff_ffff_ffff_ffff,
            Kind::F32 => 0xffff_ffff,
            Kind::F64 => 0xffff_ffff_ffff_ffff,
        }
    }
}

/// A value held in a register: one of a closed set of numeric kinds.
///
/// The two floating kinds carry the IEEE-754 bit pattern of their number, so
/// two floating values are equal exactly when their bit patterns are.
#[derive(Debug, Clone, Copy, PartialEq, Eq, Hash, Structural)]
pub enum NativeTypes {
    Empty,
    U8(u8),
    I8(i8),
    U16(u16),
    I16(i16),
    U32(u32),
    I32(i32),
    U64(u64),
    I64(i64),
    F32(u32),
    F64(u64),
}

impl NativeTypes {
    /// The kind of this value.
    pub open spec fn spec_kind(self) -> Kind {
        match self {
            NativeTypes::Empty => Kind::Empty,
            NativeTypes::U8(_) => Kind::U8,
            NativeTypes::I8(_) => Kind::I8,
            NativeTypes::U16(_) => Kind::U16,
            NativeTypes::I16(_) => Kind::I16,
            NativeTypes::U32(_) => Kind::U32,
            NativeTypes::I32(_) => Kind::I32,
            NativeTypes::U64(_) => Kind::U64,
            NativeTypes::I64(_) => Kind::I64,
            NativeTypes::F32(_) => Kind::F32,
            NativeTypes::F64(_) => Kind::F64,
        }
    }

    /// The payload as a mathematical integer: the number itself for an integer
    /// kind, the bit pattern for a floating kind, 0 for `Empty`.
    pub open spec fn payload(self) -> int {
        match self {
            NativeTypes::Empty => 0,
            NativeTypes::U8(x) => x as int,
            NativeTypes::I8(x) => x as int,
            NativeTypes::U16(x) => x as int,
            NativeTypes::I16(x) => x as int,
            NativeTypes::U32(x) => x as int,
            NativeTypes::I32(x) => x as int,
            NativeTypes::U64(x) => x as int,
            NativeTypes::I64(x) => x as int,
            NativeTypes::F32(x) => x as int,
            NativeTypes::F64(x) => x as int,
        }
    }

    /// The value of kind `kind` whose payload is `n`.
    pub open spec fn of(kind: Kind, n: int) -> NativeTypes
        recommends
            kind.min() <= n <= kind.max(),
    {
        match kind {
            Kind::Empty => NativeTypes::Empty,
            Kind::U8 => NativeTypes::U8(n as u8),
            Kind::I8 => NativeTypes::I8(n as i8),
            Kind::U16 => NativeTypes::U16(n as u16),
            Kind::I16 => NativeTypes::I16(n as i16),
            Kind::U32 => NativeTypes::U32(n as u32),
            Kind::I32 => NativeTypes::I32(n as i32),
            Kind::U64 => NativeTypes::U64(n as u64),
            Kind::I64 => NativeTypes::I64(n as i64),
            Kind::F32 => NativeTypes::F32(n as u32),
            Kind::F64 => NativeTypes::F64(n as u64),
        }
    }

    /// The kind of this value.
    #[verifier::when_used_as_spec(spec_kind)]
    pub fn kind(self) -> (k: Kind)
        ensures
            k == self.spec_kind(),
    {
        match self {
            NativeTypes::Empty => Kind::Empty,
            NativeTypes::U8(_) => Kind::U8,
            NativeTypes::I8(_) => Kind::I8,
            NativeTypes::U16(_) => Kind::U16,
            NativeTypes::I16(_) => Kind::I16,
            NativeTypes::U32(_) => Kind::U32,
            NativeTypes::I32(_) => Kind::I32,
            NativeTypes::U64(_) => Kind::U64,
            NativeTypes::I64(_) => Kind::I64,
            NativeTypes::F32(_) => Kind::F32,
            NativeTypes::F64(_) => Kind::F64,
        }
    }
}

/// A value is determined by its kind and its payload, and the payload lies in
/// the range of the kind.
pub proof fn lemma_value_of_kind_and_payload(v: NativeTypes)
    ensures
        v.kind().min() <= v.payload() <= v.kind().max(),
        NativeTypes::of(v.kind(), v.payload()) == v,
{
}

/// One decoded instruction. Arithmetic instructions name two source registers
/// and then the destination register.
#[derive(Debug, Clone, Copy, PartialEq, Eq, Structural)]
pub enum Opcode {
    /// Halt
    HLT,
    /// Illegal
    IGL,
    LOAD(Register, NativeTypes),
    ADD(Register, Register, Register),
    SUB(Register, Register, Register),
    MUL(Register, Register, Register),
    DIV(Register, Register, Register),
}

/// An instruction: an opcode together with its operands.
#[derive(Debug, PartialEq, Eq, Structural)]
pub struct Instruction {
    opcode: Opcode,
}

impl Instruction {
    /// The opcode this instruction holds.
    pub closed spec fn view(&self) -> Opcode {
        self.opcode
    }

    pub fn new(opcode: Opcode) -> (instruction: Instruction)
        ensures
            instruction@ == opcode,
    {
        Instruction { opcode }
    }

    pub fn opcode(&self) -> (opcode: Opcode)
        ensures
            opcode == self@,
    {
        self.opcode
    }
}

} // verus!
