//! Arithmetic on register values: exact integer results, checked against the
//! range of the operands' kind.

use crate::instructions::{Kind, NativeTypes};
use vstd::prelude::*;

verus! {

/// The four arithmetic operations of the machine.
#[derive(Debug, Clone, Copy, PartialEq, Eq, Structural)]
pub enum ArithOp {
    Add,
    Sub,
    Mul,
    Div,
}

/// The quotient of `x` by `y`, rounded toward zero.
pub open spec fn quotient(x: int, y: int) -> int
    recommends
        y != 0,
{
    if x >= 0 && y > 0 {
        x / y
    } else if x < 0 && y < 0 {
        (-x) / (-y)
    } else if x < 0 {
        -((-x) / y)
    } else {
        -(x / (-y))
    }
}

impl ArithOp {
    /// The mathematical result of the operation on two integers.
    pub open spec fn exact(self, x: int, y: int) -> int {
        match self {
            ArithOp::Add => x + y,
            ArithOp::Sub => x - y,
            ArithOp::Mul => x * y,
            ArithOp::Div => quotient(x, y),
        }
    }
}

/// What combining two register values gives.
#[derive(Debug, Clone, Copy, PartialEq, Eq, Structural)]
pub enum Combined {
    /// Two integers of one kind, and the result fits that kind.
    Value(NativeTypes),
    /// Two floating values of one kind: the result is not computed here.
    Float,
    /// The operands differ in kind, or are `Empty`.
    Mismatch,
    /// Integer division by zero.
    DivideByZero,
    /// The exact integer result does not fit the operands' kind.
    Overflow,
}

/// The result of `op` on two integers of kind `kind`.
pub open spec fn settle(kind: Kind, op: ArithOp, x: int, y: int) -> Combined {
    if op is Div && y == 0 {
        Combined::DivideByZero
    } else if kind.min() <= op.exact(x, y) <= kind.max() {
        Combined::Value(NativeTypes::of(kind, op.exact(x, y)))
    } else {
        Combined::Overflow
    }
}

/// The result of `op` on two register values.
pub open spec fn combine_spec(op: ArithOp, lhs: NativeTypes, rhs: NativeTypes) -> Combined {
    if lhs.kind() != rhs.kind() || lhs.kind() is Empty {
        Combined::Mismatch
    } else if lhs.kind().is_float() {
        Combined::Float
    } else {
        settle(lhs.kind(), op, lhs.payload(), rhs.payload())
    }
}

/// Where two values combine to a value, all three are integers of one kind.
pub proof fn lemma_combined_value_keeps_kind(op: ArithOp, lhs: NativeTypes, rhs: NativeTypes)
    requires
        combine_spec(op, lhs, rhs) is Value,
    ensures
        lhs.kind().is_integer(),
        rhs.kind() == lhs.kind(),
        combine_spec(op, lhs, rhs)->Value_0.kind() == lhs.kind(),
        combine_spec(op, lhs, rhs)->Value_0.payload() == op.exact(lhs.payload(), rhs.payload()),
{
}

fn combine_u8(op: ArithOp, x: u8, y: u8) -> (r: Combined)
    ensures
        r == settle(Kind::U8, op, x as int, y as int),
{
    let checked = match op {
        ArithOp::Add => x.checked_add(y),
        ArithOp::Sub => x.checked_sub(y),
        ArithOp::Mul => x.checked_mul(y),
        ArithOp::Div => {
            if y == 0 {
                return Combined::DivideByZero;
            }
            Some(x / y)
        },
    };
    match checked {
        Some(v) => Combined::Value(NativeTypes::U8(v)),
        None => Combined::Overflow,
    }
}

fn combine_i8(op: ArithOp, x: i8, y: i8) -> (r: Combined)
    ensures
        r == settle(Kind::I8, op, x as int, y as int),
{
    let checked = match op {
        ArithOp::Add => x.checked_add(y),
        ArithOp::Sub => x.checked_sub(y),
        ArithOp::Mul => x.checked_mul(y),
        ArithOp::Div => {
            if y == 0 {
                return Combined::DivideByZero;
            }
            x.checked_div(y)
        },
    };
    match checked {
        Some(v) => Combined::Value(NativeTypes::I8(v)),
        None => Combined::Overflow,
    }
}

fn combine_u16(op: ArithOp, x: u16, y: u16) -> (r: Combined)
    ensures
        r == settle(Kind::U16, op, x as int, y as int),
{
    let checked = match op {
        ArithOp::Add => x.checked_add(y),
        ArithOp::Sub => x.checked_sub(y),
        ArithOp::Mul => x.checked_mul(y),
        ArithOp::Div => {
            if y == 0 {
                return Combined::DivideByZero;
            }
            Some(x / y)
        },
    };
    match checked {
        Some(v) => Combined::Value(NativeTypes::U16(v)),
        None => Combined::Overflow,
    }
}

fn combine_i16(op: ArithOp, x: i16, y: i16) -> (r: Combined)
    ensures
        r == settle(Kind::I16, op, x as int, y as int),
{
    let checked = match op {
        ArithOp::Add => x.checked_add(y),
        ArithOp::Sub => x.checked_sub(y),
        ArithOp::Mul => x.checked_mul(y),
        ArithOp::Div => {
            if y == 0 {
                return Combined::DivideByZero;
            }
            x.checked_div(y)
        },
    };
    match checked {
        Some(v) => Combined::Value(NativeTypes::I16(v)),
        None => Combined::Overflow,
    }
}

fn combine_u32(op: ArithOp, x: u32, y: u32) -> (r: Combined)
    ensures
        r == settle(Kind::U32, op, x as int, y as int),
{
    let checked = match op {
        ArithOp::Add => x.checked_add(y),
        ArithOp::Sub => x.checked_sub(y),
        ArithOp::Mul => x.checked_mul(y),
        ArithOp::Div => {
            if y == 0 {
                return Combined::DivideByZero;
            }
            Some(x / y)
        },
    };
    match checked {
        Some(v) => Combined::Value(NativeTypes::U32(v)),
        None => Combined::Overflow,
    }
}

fn combine_i32(op: ArithOp, x: i32, y: i32) -> (r: Combined)
    ensures
        r == settle(Kind::I32, op, x as int, y as int),
{
    let checked = match op {
        ArithOp::Add => x.checked_add(y),
        ArithOp::Sub => x.checked_sub(y),
        ArithOp::Mul => x.checked_mul(y),
        ArithOp::Div => {
            if y == 0 {
                return Combined::DivideByZero;
            }
            x.checked_div(y)
        },
    };
    match checked {
        Some(v) => Combined::Value(NativeTypes::I32(v)),
        None => Combined::Overflow,
    }
}

fn combine_u64(op: ArithOp, x: u64, y: u64) -> (r: Combined)
    ensures
        r == settle(Kind::U64, op, x as int, y as int),
{
    let checked = match op {
        ArithOp::Add => x.checked_add(y),
        ArithOp::Sub => x.checked_sub(y),
        ArithOp::Mul => x.checked_mul(y),
        ArithOp::Div => {
            if y == 0 {
                return Combined::DivideByZero;
            }
            Some(x / y)
        },
    };
    match checked {
        Some(v) => Combined::Value(NativeTypes::U64(v)),
        None => Combined::Overflow,
    }
}

fn combine_i64(op: ArithOp, x: i64, y: i64) -> (r: Combined)
    ensures
        r == settle(Kind::I64, op, x as int, y as int),
{
    let checked = match op {
        ArithOp::Add => x.checked_add(y),
        ArithOp::Sub => x.checked_sub(y),
        ArithOp::Mul => x.checked_mul(y),
        ArithOp::Div => {
            if y == 0 {
                return Combined::DivideByZero;
            }
            x.checked_div(y)
        },
    };
    match checked {
        Some(v) => Combined::Value(NativeTypes::I64(v)),
        None => Combined::Overflow,
    }
}

/// Combines two register values with `op`.
///
/// Integers of one kind give their exact result where it fits the kind, and
/// `Overflow` or `DivideByZero` where it does not exist or does not fit.
#[verifier::when_used_as_spec(combine_spec)]
pub fn combine(op: ArithOp, lhs: NativeTypes, rhs: NativeTypes) -> (r: Combined)
    ensures
        r == combine_spec(op, lhs, rhs),
{
    match (lhs, rhs) {
        (NativeTypes::U8(x), NativeTypes::U8(y)) => combine_u8(op, x, y),
        (NativeTypes::I8(x), NativeTypes::I8(y)) => combine_i8(op, x, y),
        (NativeTypes::U16(x), NativeTypes::U16(y)) => combine_u16(op, x, y),
        (NativeTypes::I16(x), NativeTypes::I16(y)) => combine_i16(op, x, y),
        (NativeTypes::U32(x), NativeTypes::U32(y)) => combine_u32(op, x, y),
        (NativeTypes::I32(x), NativeTypes::I32(y)) => combine_i32(op, x, y),
        (NativeTypes::U64(x), NativeTypes::U64(y)) => combine_u64(op, x, y),
        (NativeTypes::I64(x), NativeTypes::I64(y)) => combine_i64(op, x, y),
        (NativeTypes::F32(_), NativeTypes::F32(_)) => Combined::Float,
        (NativeTypes::F64(_), NativeTypes::F64(_)) => Combined::Float,
        _ => Combined::Mismatch,
    }
}

} // verus!
