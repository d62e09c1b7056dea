//! The engine: a program, a program counter and a bank of 32 registers,
//! driven one instruction at a time.
//!
//! The engine computes on integers itself. For an operation on two floating
//! values it hands the operands out as a [`FloatRequest`]; the caller computes
//! the result, hands it back with [`VM::complete`] and goes on.

use crate::arith::{combine, ArithOp, Combined};
use crate::encoding::{
    be16, decode_at, le32, le64, to_i16, to_i32, to_i64, to_i8, typed_value_at, OP_ADD, OP_DIV,
    OP_HLT, OP_LOAD, OP_MUL, OP_SUB,
};
use crate::instructions::{Kind, NativeTypes, Opcode, Register};
use vstd::prelude::*;

verus! {

/// Number of registers of the machine.
pub const REGISTER_COUNT: usize = 32;

/// A condition that ends a run and cannot be the program's intent. A step that
/// reports a fault leaves the engine as it found it.
#[derive(Debug, Clone, Copy, PartialEq, Eq, Structural)]
pub enum Fault {
    /// The bytes of the instruction reach past the end of the program.
    OutOfBounds,
    /// The instruction names a register that the machine does not have.
    IndexOutOfRange,
    /// `Add` or `Sub` on values of different kinds, or on `Empty`.
    TypeMismatch,
    /// Integer division by zero.
    DivideByZero,
    /// An integer result that does not fit the kind of its operands.
    Overflow,
}

/// An operation on two floating values of one kind that the caller is asked
/// to carry out; the result belongs in register `dest`.
#[derive(Debug, Clone, Copy, PartialEq, Eq, Structural)]
pub struct FloatRequest {
    pub op: ArithOp,
    pub lhs: NativeTypes,
    pub rhs: NativeTypes,
    pub dest: Register,
}

impl FloatRequest {
    /// True where the operands are floating values of one kind and the
    /// destination is a register of the machine: so is every request that a
    /// step hands out.
    pub open spec fn well_formed(self) -> bool {
        &&& self.lhs.kind().is_float()
        &&& self.rhs.kind() == self.lhs.kind()
        &&& self.dest < REGISTER_COUNT
    }

    /// True where `result` can be the outcome of this request: a value of the
    /// operands' floating kind.
    pub open spec fn admits(self, result: NativeTypes) -> bool {
        result.kind().is_float() && result.kind() == self.lhs.kind()
    }
}

/// What one step of the engine reports.
#[derive(Debug, Clone, Copy, PartialEq, Eq, Structural)]
pub enum Step {
    /// The instruction was carried out; the next one can follow.
    Continue,
    /// The program counter stands at or past the last byte of the program.
    EndOfProgram,
    /// A `Halt` instruction.
    Halted,
    /// A byte that is no opcode, at the given position.
    IllegalOpcode(usize),
    /// `Mul` or `Div` on values of different kinds, or on `Empty`.
    Mismatch,
    /// The instruction is an operation on floating values; the run goes on
    /// once the caller has stored its result.
    Float(FloatRequest),
    /// The instruction cannot be carried out.
    Fault(Fault),
}

impl Step {
    /// True where the run is over: for every report but `Continue` and
    /// `Float`.
    pub open spec fn spec_should_stop(self) -> bool {
        !(self is Continue) && !(self is Float)
    }

    /// True where the run is over: for every report but `Continue` and
    /// `Float`.
    #[verifier::when_used_as_spec(spec_should_stop)]
    pub fn should_stop(self) -> (stop: bool)
        ensures
            stop == self.spec_should_stop(),
    {
        match self {
            Step::Continue => false,
            Step::Float(_) => false,
            _ => true,
        }
    }
}

/// The state of an engine as mathematics sees it.
#[verifier::ext_equal]
pub struct Machine {
    pub registers: Seq<NativeTypes>,
    pub pc: int,
    pub program: Seq<u8>,
}

impl Machine {
    /// The state of a new engine: every register holds `U8(0)`, the program is
    /// empty and the program counter is 0.
    pub open spec fn fresh() -> Machine {
        Machine {
            registers: Seq::new(REGISTER_COUNT as nat, |i: int| NativeTypes::U8(0)),
            pc: 0,
            program: Seq::empty(),
        }
    }

    /// True of the state of every engine: the machine has its 32 registers
    /// and the program counter is not negative.
    pub open spec fn well_formed(self) -> bool {
        self.registers.len() == REGISTER_COUNT && self.pc >= 0
    }

    /// This state with the program counter at `pc`.
    pub open spec fn jump(self, pc: int) -> Machine {
        Machine { pc, ..self }
    }

    /// This state with `value` in register `r`.
    pub open spec fn store(self, r: int, value: NativeTypes) -> Machine {
        Machine { registers: self.registers.update(r, value), ..self }
    }

    /// True where no instruction is left to decode: the program counter is at
    /// or past the last byte of the program.
    pub open spec fn at_end(self) -> bool {
        self.pc + 1 >= self.program.len()
    }

    /// What an arithmetic instruction does to the registers, and what it
    /// reports. The source registers are read first, then the values are
    /// combined, and the destination is looked at last.
    pub open spec fn arithmetic(self, op: ArithOp, r1: Register, r2: Register, r3: Register) -> (
        Seq<NativeTypes>,
        Step,
    ) {
        if r1 >= REGISTER_COUNT || r2 >= REGISTER_COUNT {
            (self.registers, Step::Fault(Fault::IndexOutOfRange))
        } else {
            let lhs = self.registers[r1 as int];
            let rhs = self.registers[r2 as int];
            match combine(op, lhs, rhs) {
                Combined::Mismatch => if op is Add || op is Sub {
                    (self.registers, Step::Fault(Fault::TypeMismatch))
                } else {
                    (self.registers, Step::Mismatch)
                },
                Combined::DivideByZero => (self.registers, Step::Fault(Fault::DivideByZero)),
                Combined::Overflow => (self.registers, Step::Fault(Fault::Overflow)),
                Combined::Float => if r3 >= REGISTER_COUNT {
                    (self.registers, Step::Fault(Fault::IndexOutOfRange))
                } else {
                    (self.registers, Step::Float(FloatRequest { op, lhs, rhs, dest: r3 }))
                },
                Combined::Value(value) => if r3 >= REGISTER_COUNT {
                    (self.registers, Step::Fault(Fault::IndexOutOfRange))
                } else {
                    (self.registers.update(r3 as int, value), Step::Continue)
                },
            }
        }
    }

    /// What the instruction `opcode`, decoded at the program counter, does to
    /// the registers, and what it reports.
    pub open spec fn apply(self, opcode: Opcode) -> (Seq<NativeTypes>, Step) {
        match opcode {
            Opcode::HLT => (self.registers, Step::Halted),
            Opcode::IGL => (self.registers, Step::IllegalOpcode(self.pc as usize)),
            Opcode::LOAD(r, value) => if r >= REGISTER_COUNT {
                (self.registers, Step::Fault(Fault::IndexOutOfRange))
            } else {
                (self.registers.update(r as int, value), Step::Continue)
            },
            Opcode::ADD(r1, r2, r3) => self.arithmetic(ArithOp::Add, r1, r2, r3),
            Opcode::SUB(r1, r2, r3) => self.arithmetic(ArithOp::Sub, r1, r2, r3),
            Opcode::MUL(r1, r2, r3) => self.arithmetic(ArithOp::Mul, r1, r2, r3),
            Opcode::DIV(r1, r2, r3) => self.arithmetic(ArithOp::Div, r1, r2, r3),
        }
    }

    /// One fetch-decode-execute step: the state after it and what it reports.
    ///
    /// At the end of the program nothing is decoded. Otherwise the instruction
    /// at the program counter is decoded and applied, and the program counter
    /// moves past it, unless the step reports a fault: then nothing changes.
    pub open spec fn step(self) -> (Machine, Step) {
        if self.at_end() {
            (self, Step::EndOfProgram)
        } else {
            match decode_at(self.program, self.pc) {
                None => (self, Step::Fault(Fault::OutOfBounds)),
                Some((opcode, next)) => {
                    let (registers, signal) = self.apply(opcode);
                    if signal is Fault {
                        (self, signal)
                    } else {
                        (Machine { registers, pc: next, program: self.program }, signal)
                    }
                },
            }
        }
    }

    /// Steps until a step reports something other than `Continue`: the state
    /// then, and that report.
    pub open spec fn run(self) -> (Machine, Step)
        decreases self.program.len() - self.pc,
    {
        let (next, signal) = self.step();
        if signal is Continue {
            next.run()
        } else {
            (next, signal)
        }
    }
}

/// We implement a register based VM.
#[derive(Debug)]
pub struct VM {
    pub registers: [NativeTypes; 32],
    /// program counter
    pub pc: usize,
    pub program: Vec<u8>,
}

impl View for VM {
    type V = Machine;

    open spec fn view(&self) -> Machine {
        Machine { registers: self.registers@, pc: self.pc as int, program: self.program@ }
    }
}

impl VM {
    /// Reads the byte at the program counter and moves past it; `None`, and
    /// nothing moves, at the end of the program.
    fn next_8_bits(&mut self) -> (byte: Option<u8>)
        ensures
            final(self).registers == old(self).registers,
            final(self).program == old(self).program,
            old(self).pc < old(self).program.len() ==> byte == Some(
                old(self).program[old(self).pc as int],
            ) && final(self).pc == old(self).pc + 1,
            old(self).pc >= old(self).program.len() ==> byte is None && final(self).pc == old(
                self,
            ).pc,
    {
        if self.pc < self.program.len() {
            let byte = self.program[self.pc];
            self.pc += 1;
            Some(byte)
        } else {
            None
        }
    }

    /// Reads the two bytes at the program counter, high byte first, and moves
    /// past them; `None`, and nothing moves, where fewer than two are left.
    fn next_16_bits(&mut self) -> (word: Option<u16>)
        ensures
            final(self).registers == old(self).registers,
            final(self).program == old(self).program,
            old(self).pc + 2 <= old(self).program.len() ==> word is Some && word->0 == be16(
                old(self).program@,
                old(self).pc as int,
            ) && final(self).pc == old(self).pc + 2,
            old(self).pc + 2 > old(self).program.len() ==> word is None && final(self).pc == old(
                self,
            ).pc,
    {
        if self.pc < self.program.len() && self.program.len() - self.pc >= 2 {
            let high = self.program[self.pc] as u16;
            let low = self.program[self.pc + 1] as u16;
            self.pc += 2;
            Some(high * 0x100 + low)
        } else {
            None
        }
    }

    /// Reads the four bytes at the program counter, low byte first, and moves
    /// past them; `None`, and nothing moves, where fewer than four are left.
    fn next_32_bits(&mut self) -> (word: Option<u32>)
        ensures
            final(self).registers == old(self).registers,
            final(self).program == old(self).program,
            old(self).pc + 4 <= old(self).program.len() ==> word is Some && word->0 == le32(
                old(self).program@,
                old(self).pc as int,
            ) && final(self).pc == old(self).pc + 4,
            old(self).pc + 4 > old(self).program.len() ==> word is None && final(self).pc == old(
                self,
            ).pc,
    {
        if self.pc < self.program.len() && self.program.len() - self.pc >= 4 {
            let b0 = self.program[self.pc] as u32;
            let b1 = self.program[self.pc + 1] as u32;
            let b2 = self.program[self.pc + 2] as u32;
            let b3 = self.program[self.pc + 3] as u32;
            self.pc += 4;
            Some(b0 + b1 * 0x100 + b2 * 0x1_0000 + b3 * 0x100_0000)
        } else {
            None
        }
    }

    /// Reads the eight bytes at the program counter, low byte first, and moves
    /// past them; `None`, and nothing moves, where fewer than eight are left.
    fn next_64_bits(&mut self) -> (word: Option<u64>)
        ensures
            final(self).registers == old(self).registers,
            final(self).program == old(self).program,
            old(self).pc + 8 <= old(self).program.len() ==> word is Some && word->0 == le64(
                old(self).program@,
                old(self).pc as int,
            ) && final(self).pc == old(self).pc + 8,
            old(self).pc + 8 > old(self).program.len() ==> word is None && final(self).pc == old(
                self,
            ).pc,
    {
        if self.pc < self.program.len() && self.program.len() - self.pc >= 8 {
            let low = match self.next_32_bits() {
                Some(word) => word as u64,
                None => 0,
            };
            let high = match self.next_32_bits() {
                Some(word) => word as u64,
                None => 0,
            };
            Some(low + high * 0x1_0000_0000)
        } else {
            None
        }
    }

    /// Decodes the typed value that starts at the program counter with its tag
    /// byte, and moves the program counter past it.
    ///
    /// Returns `None`, and moves nothing, exactly where the value does not lie
    /// within the program.
    pub fn decode_type(&mut self) -> (value: Option<NativeTypes>)
        ensures
            final(self).registers == old(self).registers,
            final(self).program == old(self).program,
            match typed_value_at(old(self).program@, old(self).pc as int) {
                Some((v, next)) => value == Some(v) && final(self).pc == next,
                None => value is None && final(self).pc == old(self).pc,
            },
    {
        let start = self.pc;
        let tag = match self.next_8_bits() {
            Some(tag) => tag,
            None => {
                return None;
            },
        };
        let value = match tag {
            0 => match self.next_8_bits() {
                Some(byte) => Some(NativeTypes::U8(byte)),
                None => None,
            },
            1 => match self.next_8_bits() {
                Some(byte) => Some(NativeTypes::I8(to_i8(byte))),
                None => None,
            },
            2 => match self.next_16_bits() {
                Some(word) => Some(NativeTypes::U16(word)),
                None => None,
            },
            3 => match self.next_16_bits() {
                Some(word) => Some(NativeTypes::I16(to_i16(word))),
                None => None,
            },
            4 => match self.next_32_bits() {
                Some(word) => Some(NativeTypes::U32(word)),
                None => None,
            },
            5 => match self.next_32_bits() {
                Some(word) => Some(NativeTypes::I32(to_i32(word))),
                None => None,
            },
            6 => match self.next_64_bits() {
                Some(word) => Some(NativeTypes::U64(word)),
                None => None,
            },
            7 => match self.next_64_bits() {
                Some(word) => Some(NativeTypes::I64(to_i64(word))),
                None => None,
            },
            8 => match self.next_32_bits() {
                Some(word) => Some(NativeTypes::F32(word)),
                None => None,
            },
            9 => match self.next_64_bits() {
                Some(word) => Some(NativeTypes::F64(word)),
                None => None,
            },
            _ => Some(NativeTypes::Empty),
        };
        if value.is_none() {
            self.pc = start;
        }
        value
    }

    /// Decodes the instruction at the program counter and moves the program
    /// counter past every byte of it.
    ///
    /// Returns `None`, and moves nothing, exactly where the instruction does
    /// not lie within the program.
    pub fn decode(&mut self) -> (opcode: Option<Opcode>)
        ensures
            final(self).registers == old(self).registers,
            final(self).program == old(self).program,
            match decode_at(old(self).program@, old(self).pc as int) {
                Some((op, next)) => opcode == Some(op) && final(self).pc == next,
                None => opcode is None && final(self).pc == old(self).pc,
            },
    {
        let start = self.pc;
        let op = match self.next_8_bits() {
            Some(op) => op,
            None => {
                return None;
            },
        };
        let opcode = if op == OP_HLT {
            Some(Opcode::HLT)
        } else if op == OP_LOAD {
            match self.next_8_bits() {
                Some(reg) => match self.decode_type() {
                    Some(value) => Some(Opcode::LOAD(reg as Register, value)),
                    None => None,
                },
                None => None,
            }
        } else if op <= OP_DIV {
            match (self.next_8_bits(), self.next_8_bits(), self.next_8_bits()) {
                (Some(r1), Some(r2), Some(r3)) => {
                    let reg1 = r1 as Register;
                    let reg2 = r2 as Register;
                    let reg3 = r3 as Register;
                    if op == OP_ADD {
                        Some(Opcode::ADD(reg1, reg2, reg3))
                    } else if op == OP_SUB {
                        Some(Opcode::SUB(reg1, reg2, reg3))
                    } else if op == OP_MUL {
                        Some(Opcode::MUL(reg1, reg2, reg3))
                    } else {
                        Some(Opcode::DIV(reg1, reg2, reg3))
                    }
                },
                _ => None,
            }
        } else {
            Some(Opcode::IGL)
        };
        if opcode.is_none() {
            self.pc = start;
        }
        opcode
    }

    /// Carries out an arithmetic instruction on the registers.
    fn arithmetic(&mut self, op: ArithOp, r1: Register, r2: Register, r3: Register) -> (signal:
        Step)
        ensures
            final(self).pc == old(self).pc,
            final(self).program == old(self).program,
            final(self).registers@ == old(self)@.arithmetic(op, r1, r2, r3).0,
            signal == old(self)@.arithmetic(op, r1, r2, r3).1,
    {
        if r1 >= REGISTER_COUNT || r2 >= REGISTER_COUNT {
            return Step::Fault(Fault::IndexOutOfRange);
        }
        let lhs = self.registers[r1];
        let rhs = self.registers[r2];
        match combine(op, lhs, rhs) {
            Combined::Mismatch => match op {
                ArithOp::Add | ArithOp::Sub => Step::Fault(Fault::TypeMismatch),
                _ => Step::Mismatch,
            },
            Combined::DivideByZero => Step::Fault(Fault::DivideByZero),
            Combined::Overflow => Step::Fault(Fault::Overflow),
            Combined::Float => if r3 >= REGISTER_COUNT {
                Step::Fault(Fault::IndexOutOfRange)
            } else {
                Step::Float(FloatRequest { op, lhs, rhs, dest: r3 })
            },
            Combined::Value(value) => if r3 >= REGISTER_COUNT {
                Step::Fault(Fault::IndexOutOfRange)
            } else {
                self.registers[r3] = value;
                Step::Continue
            },
        }
    }

    /// One fetch-decode-execute step.
    ///
    /// At or past the last byte of the program nothing is decoded and the step
    /// reports `EndOfProgram`. A step that reports a fault changes nothing.
    pub fn execute_instruction(&mut self) -> (signal: Step)
        ensures
            final(self)@ == old(self)@.step().0,
            signal == old(self)@.step().1,
            final(self).program@ == old(self).program@,
            final(self).pc >= old(self).pc,
            signal is Fault ==> final(self)@ == old(self)@,
    {
        proof {
            lemma_step_keeps_shape(self@);
        }
        if self.program.len() == 0 || self.pc >= self.program.len() - 1 {
            return Step::EndOfProgram;
        }
        let start = self.pc;
        let opcode = match self.decode() {
            Some(opcode) => opcode,
            None => {
                return Step::Fault(Fault::OutOfBounds);
            },
        };
        let signal = match opcode {
            Opcode::HLT => Step::Halted,
            Opcode::IGL => Step::IllegalOpcode(start),
            Opcode::LOAD(reg, value) => if reg >= REGISTER_COUNT {
                Step::Fault(Fault::IndexOutOfRange)
            } else {
                self.registers[reg] = value;
                Step::Continue
            },
            Opcode::ADD(r1, r2, r3) => self.arithmetic(ArithOp::Add, r1, r2, r3),
            Opcode::SUB(r1, r2, r3) => self.arithmetic(ArithOp::Sub, r1, r2, r3),
            Opcode::MUL(r1, r2, r3) => self.arithmetic(ArithOp::Mul, r1, r2, r3),
            Opcode::DIV(r1, r2, r3) => self.arithmetic(ArithOp::Div, r1, r2, r3),
        };
        match signal {
            Step::Fault(_) => {
                self.pc = start;
            },
            _ => {},
        }
        signal
    }

    /// A new engine: every register holds `U8(0)`, the program is empty and
    /// the program counter is 0.
    pub fn new() -> (vm: VM)
        ensures
            vm@ == Machine::fresh(),
    {
        VM { registers: [NativeTypes::U8(0);32], program: Vec::new(), pc: 0 }
    }

    /// Steps until a step reports something other than `Continue`, and returns
    /// that report.
    pub fn run(&mut self) -> (signal: Step)
        ensures
            final(self)@ == old(self)@.run().0,
            signal == old(self)@.run().1,
            !(signal is Continue),
            final(self).program@ == old(self).program@,
            final(self).pc >= old(self).pc,
    {
        loop
            invariant
                self@.run() == old(self)@.run(),
                self.program@ == old(self).program@,
                self.pc >= old(self).pc,
            decreases self.program.len() - self.pc,
        {
            let signal = self.execute_instruction();
            match signal {
                Step::Continue => {},
                _ => {
                    return signal;
                },
            }
        }
    }

    /// Stores the result of a floating operation that a step handed out.
    ///
    /// Succeeds exactly where the request names a register of the machine and
    /// `result` is a floating value of the kind of the request's operands;
    /// register `request.dest` then holds `result` and nothing else changes.
    /// Otherwise nothing changes, and the error is `IndexOutOfRange` for a
    /// destination that the machine does not have, else `TypeMismatch`.
    pub fn complete(&mut self, request: FloatRequest, result: NativeTypes) -> (done: Result<
        (),
        Fault,
    >)
        ensures
            done is Ok <==> request.dest < REGISTER_COUNT && request.admits(result),
            done is Ok ==> final(self)@ == old(self)@.store(request.dest as int, result),
            done is Err ==> final(self)@ == old(self)@,
            done == Err::<(), Fault>(Fault::IndexOutOfRange) <==> request.dest >= REGISTER_COUNT,
            done == Err::<(), Fault>(Fault::TypeMismatch) <==> request.dest < REGISTER_COUNT
                && !request.admits(result),
    {
        if request.dest >= REGISTER_COUNT {
            return Err(Fault::IndexOutOfRange);
        }
        let wanted = request.lhs.kind();
        let given = result.kind();
        let floating = match given {
            Kind::F32 | Kind::F64 => true,
            _ => false,
        };
        if !floating || given != wanted {
            return Err(Fault::TypeMismatch);
        }
        self.registers[request.dest] = result;
        Ok(())
    }

    /// Takes exactly one step and returns its report.
    pub fn run_once(&mut self) -> (signal: Step)
        ensures
            final(self)@ == old(self)@.step().0,
            signal == old(self)@.step().1,
            final(self).program@ == old(self).program@,
            final(self).pc >= old(self).pc,
            signal is Fault ==> final(self)@ == old(self)@,
    {
        self.execute_instruction()
    }
}

/// A step never writes to the program, never changes the number of registers
/// and never moves the program counter back; a step that reports a fault
/// changes nothing at all.
pub proof fn lemma_step_keeps_shape(m: Machine)
    requires
        m.well_formed(),
    ensures
        m.step().0.well_formed(),
        m.step().0.program == m.program,
        m.step().0.pc >= m.pc,
        m.step().1 is Fault ==> m.step().0 == m,
{
}

/// The state of an engine is well formed.
pub proof fn lemma_view_well_formed(vm: VM)
    ensures
        vm@.well_formed(),
{
}

/// A step that reports `Continue` has moved the program counter forward and
/// not past the end of the program, so every run comes to an end.
pub proof fn lemma_step_advances(m: Machine)
    requires
        m.step().1 is Continue,
    ensures
        m.pc < m.step().0.pc <= m.program.len(),
{
}

/// At the end of the program every further step reports `EndOfProgram` and
/// changes nothing: so does a run.
pub proof fn lemma_end_is_final(m: Machine)
    requires
        m.at_end(),
    ensures
        m.step() == (m, Step::EndOfProgram),
        m.run() == (m, Step::EndOfProgram),
{
}

/// A fault is final: the step that reported it changed nothing, so every
/// further step and every run reports the same fault.
pub proof fn lemma_fault_is_final(m: Machine)
    requires
        m.step().1 is Fault,
    ensures
        m.step().0 == m,
        m.run() == m.step(),
{
}

/// A run never reports `Continue`, never writes to the program, keeps the
/// number of registers and never moves the program counter back.
pub proof fn lemma_run_never_continues(m: Machine)
    requires
        m.well_formed(),
    ensures
        !(m.run().1 is Continue),
        m.run().0.well_formed(),
        m.run().0.program == m.program,
        m.run().0.pc >= m.pc,
    decreases m.program.len() - m.pc,
{
    lemma_step_keeps_shape(m);
    if m.step().1 is Continue {
        lemma_run_never_continues(m.step().0);
    }
}

/// On a program that starts with the `Halt` byte and has at least one byte
/// more, an engine at the start stops at its first step, with the program
/// counter at 1 and every register as it was. A run does the same.
pub proof fn lemma_leading_halt(m: Machine)
    requires
        m.pc == 0,
        m.program.len() >= 2,
        m.program[0] == OP_HLT,
    ensures
        m.step() == (m.jump(1), Step::Halted),
        m.run() == (m.jump(1), Step::Halted),
{
}

/// On a program that starts with a byte that is no opcode and has at least
/// one byte more, an engine at the start stops at its first step, with the
/// program counter at 1 and every register as it was. A run does the same.
pub proof fn lemma_leading_illegal(m: Machine)
    requires
        m.pc == 0,
        m.program.len() >= 2,
        m.program[0] > OP_DIV,
    ensures
        m.step() == (m.jump(1), Step::IllegalOpcode(0)),
        m.run() == (m.jump(1), Step::IllegalOpcode(0)),
{
}

/// `Mul` or `Div` on two registers that hold values of different kinds, or
/// `Empty`, stops the engine with `Mismatch`: the program counter moves past
/// the instruction and no register changes.
pub proof fn lemma_mixed_kinds_stop(m: Machine, r1: Register, r2: Register, r3: Register)
    requires
        !m.at_end(),
        r1 < REGISTER_COUNT,
        r2 < REGISTER_COUNT,
        m.registers[r1 as int].kind() != m.registers[r2 as int].kind() || m.registers[r1 as int]
            is Empty,
        decode_at(m.program, m.pc) matches Some((opcode, _)) && (opcode == Opcode::MUL(r1, r2, r3)
            || opcode == Opcode::DIV(r1, r2, r3)),
    ensures
        m.step() == (m.jump(m.pc + 4), Step::Mismatch),
        m.run() == (m.jump(m.pc + 4), Step::Mismatch),
{
}

/// Every floating operation that a step hands out is well formed, and that
/// step has moved the program counter past the instruction and changed no
/// register.
pub proof fn lemma_float_request(m: Machine)
    requires
        m.step().1 is Float,
    ensures
        m.step().1->Float_0.well_formed(),
        m.step().0 == m.jump(m.pc + 4),
{
}

impl Clone for VM {
    fn clone(&self) -> (vm: VM)
        ensures
            vm@ == self@,
    {
        VM { registers: self.registers, pc: self.pc, program: self.program.clone() }
    }
}

impl Default for VM {
    fn default() -> (vm: VM)
        ensures
            vm@ == Machine::fresh(),
    {
        VM::new()
    }
}

} // verus!
