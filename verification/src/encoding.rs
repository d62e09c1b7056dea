//! The wire format: how instructions and typed values are laid out in the
//! bytes of a program.
//!
//! An instruction starts with an opcode byte. `Load` is followed by a register
//! byte and a typed value: a tag byte that selects the kind, then the payload.
//! Sixteen-bit payloads are big-endian; all wider payloads are little-endian.
//! The four arithmetic instructions are followed by three register bytes.

use crate::instructions::{Kind, NativeTypes, Opcode};
use vstd::prelude::*;

verus! {

/// Opcode byte of `Halt`.
pub const OP_HLT: u8 = 0;

/// Opcode byte of `Load`.
pub const OP_LOAD: u8 = 1;

/// Opcode byte of `Add`.
pub const OP_ADD: u8 = 2;

/// Opcode byte of `Sub`.
pub const OP_SUB: u8 = 3;

/// Opcode byte of `Mul`.
pub const OP_MUL: u8 = 4;

/// Opcode byte of `Div`.
pub const OP_DIV: u8 = 5;

/// The two bytes at `at`, high byte first, as a number.
pub open spec fn be16(bytes: Seq<u8>, at: int) -> int {
    bytes[at] * 0x100 + bytes[at + 1]
}

/// The four bytes at `at`, low byte first, as a number.
pub open spec fn le32(bytes: Seq<u8>, at: int) -> int {
    bytes[at] + bytes[at + 1] * 0x100 + bytes[at + 2] * 0x1_0000 + bytes[at + 3] * 0x100_0000
}

/// The eight bytes at `at`, low byte first, as a number.
pub open spec fn le64(bytes: Seq<u8>, at: int) -> int {
    le32(bytes, at) + le32(bytes, at + 4) * 0x1_0000_0000
}

/// Reads `n`, a number below `modulus`, as a two's complement number.
pub open spec fn signed(n: int, modulus: int) -> int {
    if 2 * n >= modulus {
        n - modulus
    } else {
        n
    }
}

/// The number below `modulus` that stands for `n` in two's complement.
pub open spec fn unsigned(n: int, modulus: int) -> int {
    if n < 0 {
        n + modulus
    } else {
        n
    }
}

impl Kind {
    /// The kind that a tag byte selects. Every tag that is not one of the ten
    /// numeric tags selects `Empty`.
    pub open spec fn of_tag(tag: u8) -> Kind {
        match tag {
            0 => Kind::U8,
            1 => Kind::I8,
            2 => Kind::U16,
            3 => Kind::I16,
            4 => Kind::U32,
            5 => Kind::I32,
            6 => Kind::U64,
            7 => Kind::I64,
            8 => Kind::F32,
            9 => Kind::F64,
            _ => Kind::Empty,
        }
    }

    /// The tag byte that values of this kind are written with. For `Empty` it
    /// is a byte that selects no numeric kind.
    pub open spec fn tag(self) -> u8 {
        match self {
            Kind::U8 => 0,
            Kind::I8 => 1,
            Kind::U16 => 2,
            Kind::I16 => 3,
            Kind::U32 => 4,
            Kind::I32 => 5,
            Kind::U64 => 6,
            Kind::I64 => 7,
            Kind::F32 => 8,
            Kind::F64 => 9,
            Kind::Empty => 0xff,
        }
    }

    /// Number of payload bytes of a value of this kind.
    pub open spec fn width(self) -> int {
        match self {
            Kind::Empty => 0,
            Kind::U8 | Kind::I8 => 1,
            Kind::U16 | Kind::I16 => 2,
            Kind::U32 | Kind::I32 | Kind::F32 => 4,
            Kind::U64 | Kind::I64 | Kind::F64 => 8,
        }
    }

    /// Number of values an integer of this width can take.
    pub open spec fn modulus(self) -> int {
        match self {
            Kind::Empty => 1,
            Kind::U8 | Kind::I8 => 0x100,
            Kind::U16 | Kind::I16 => 0x1_0000,
            Kind::U32 | Kind::I32 | Kind::F32 => 0x1_0000_0000,
            Kind::U64 | Kind::I64 | Kind::F64 => 0x1_0000_0000_0000_0000,
        }
    }

    /// True for the four signed integer kinds.
    pub open spec fn is_signed(self) -> bool {
        self is I8 || self is I16 || self is I32 || self is I64
    }
}

/// The payload bytes at `at`, read as the unsigned number that a value of
/// kind `kind` is laid out as.
pub open spec fn raw_at(bytes: Seq<u8>, kind: Kind, at: int) -> int {
    match kind {
        Kind::Empty => 0,
        Kind::U8 | Kind::I8 => bytes[at] as int,
        Kind::U16 | Kind::I16 => be16(bytes, at),
        Kind::U32 | Kind::I32 | Kind::F32 => le32(bytes, at),
        Kind::U64 | Kind::I64 | Kind::F64 => le64(bytes, at),
    }
}

/// The value of kind `kind` whose payload starts at `at`.
pub open spec fn value_at(bytes: Seq<u8>, kind: Kind, at: int) -> NativeTypes
    recommends
        0 <= at,
        at + kind.width() <= bytes.len(),
{
    if kind.is_signed() {
        NativeTypes::of(kind, signed(raw_at(bytes, kind, at), kind.modulus()))
    } else {
        NativeTypes::of(kind, raw_at(bytes, kind, at))
    }
}

/// The typed value that starts at `at` with its tag byte, and the position
/// after its last byte; `None` where the value does not lie within `bytes`.
pub open spec fn typed_value_at(bytes: Seq<u8>, at: int) -> Option<(NativeTypes, int)> {
    if 0 <= at < bytes.len() {
        let kind = Kind::of_tag(bytes[at]);
        if at + 1 + kind.width() <= bytes.len() {
            Some((value_at(bytes, kind, at + 1), at + 1 + kind.width()))
        } else {
            None
        }
    } else {
        None
    }
}

/// The instruction that starts at `pc`, and the position after its last byte;
/// `None` where the instruction does not lie within `bytes`.
pub open spec fn decode_at(bytes: Seq<u8>, pc: int) -> Option<(Opcode, int)> {
    if 0 <= pc < bytes.len() {
        let op = bytes[pc];
        if op == OP_HLT {
            Some((Opcode::HLT, pc + 1))
        } else if op == OP_LOAD {
            match typed_value_at(bytes, pc + 2) {
                Some((value, next)) => Some((Opcode::LOAD(bytes[pc + 1] as usize, value), next)),
                None => None,
            }
        } else if op <= OP_DIV {
            if pc + 4 <= bytes.len() {
                let r1 = bytes[pc + 1] as usize;
                let r2 = bytes[pc + 2] as usize;
                let r3 = bytes[pc + 3] as usize;
                Some(
                    (
                        if op == OP_ADD {
                            Opcode::ADD(r1, r2, r3)
                        } else if op == OP_SUB {
                            Opcode::SUB(r1, r2, r3)
                        } else if op == OP_MUL {
                            Opcode::MUL(r1, r2, r3)
                        } else {
                            Opcode::DIV(r1, r2, r3)
                        },
                        pc + 4,
                    ),
                )
            } else {
                None
            }
        } else {
            Some((Opcode::IGL, pc + 1))
        }
    } else {
        None
    }
}

/// The number of bytes that the instruction `opcode` takes up in a program.
pub open spec fn encoded_len(opcode: Opcode) -> int {
    match opcode {
        Opcode::HLT | Opcode::IGL => 1,
        Opcode::LOAD(_, value) => 3 + value.kind().width(),
        _ => 4,
    }
}

/// A decoded instruction lies within the program, and the position after it
/// is past every one of its bytes: the opcode byte, the register bytes, and
/// for a load the tag and the payload of its kind.
pub proof fn lemma_decoded_len(bytes: Seq<u8>, pc: int)
    requires
        decode_at(bytes, pc) is Some,
    ensures
        0 <= pc < bytes.len(),
        decode_at(bytes, pc) matches Some((opcode, next)) && next == pc + encoded_len(opcode)
            && next <= bytes.len(),
{
}

/// `n` without its `count` low bytes.
pub open spec fn shifted(n: int, count: int) -> int {
    if count <= 0 {
        n
    } else if count == 1 {
        n / 0x100
    } else if count == 2 {
        n / 0x1_0000
    } else if count == 3 {
        n / 0x100_0000
    } else if count == 4 {
        n / 0x1_0000_0000
    } else if count == 5 {
        n / 0x100_0000_0000
    } else if count == 6 {
        n / 0x1_0000_0000_0000
    } else if count == 7 {
        n / 0x100_0000_0000_0000
    } else {
        n / 0x1_0000_0000_0000_0000
    }
}

/// Byte `index` of `n`, counting from the least significant.
pub open spec fn byte_of(n: int, index: int) -> u8 {
    (shifted(n, index) % 0x100) as u8
}

/// The payload bytes of a value, in the order of the wire format.
pub open spec fn payload_bytes(value: NativeTypes) -> Seq<u8> {
    let kind = value.kind();
    let raw = unsigned(value.payload(), kind.modulus());
    if kind.width() == 2 {
        seq![byte_of(raw, 1), byte_of(raw, 0)]
    } else {
        Seq::new(kind.width() as nat, |i: int| byte_of(raw, i))
    }
}

/// The encoding of a value: its tag byte, then its payload.
pub open spec fn encoding(value: NativeTypes) -> Seq<u8> {
    seq![value.kind().tag()] + payload_bytes(value)
}

/// Reads a byte as a two's complement number.
pub(crate) fn to_i8(n: u8) -> (r: i8)
    ensures
        r == signed(n as int, 0x100),
{
    if n < 0x80 {
        n as i8
    } else {
        (n - 0x80) as i8 + i8::MIN
    }
}

/// Reads sixteen bits as a two's complement number.
pub(crate) fn to_i16(n: u16) -> (r: i16)
    ensures
        r == signed(n as int, 0x1_0000),
{
    if n < 0x8000 {
        n as i16
    } else {
        (n - 0x8000) as i16 + i16::MIN
    }
}

/// Reads thirty-two bits as a two's complement number.
pub(crate) fn to_i32(n: u32) -> (r: i32)
    ensures
        r == signed(n as int, 0x1_0000_0000),
{
    if n < 0x8000_0000 {
        n as i32
    } else {
        (n - 0x8000_0000) as i32 + i32::MIN
    }
}

/// Reads sixty-four bits as a two's complement number.
pub(crate) fn to_i64(n: u64) -> (r: i64)
    ensures
        r == signed(n as int, 0x1_0000_0000_0000_0000),
{
    if n < 0x8000_0000_0000_0000 {
        n as i64
    } else {
        (n - 0x8000_0000_0000_0000) as i64 + i64::MIN
    }
}

/// The two's complement form of a number in a byte.
fn from_i8(n: i8) -> (r: u8)
    ensures
        r == unsigned(n as int, 0x100),
{
    if n >= 0 {
        n as u8
    } else {
        (n - i8::MIN) as u8 + 0x80
    }
}

/// The two's complement form of a number in sixteen bits.
fn from_i16(n: i16) -> (r: u16)
    ensures
        r == unsigned(n as int, 0x1_0000),
{
    if n >= 0 {
        n as u16
    } else {
        (n - i16::MIN) as u16 + 0x8000
    }
}

/// The two's complement form of a number in thirty-two bits.
fn from_i32(n: i32) -> (r: u32)
    ensures
        r == unsigned(n as int, 0x1_0000_0000),
{
    if n >= 0 {
        n as u32
    } else {
        (n - i32::MIN) as u32 + 0x8000_0000
    }
}

/// The two's complement form of a number in sixty-four bits.
fn from_i64(n: i64) -> (r: u64)
    ensures
        r == unsigned(n as int, 0x1_0000_0000_0000_0000),
{
    if n >= 0 {
        n as u64
    } else {
        (n - i64::MIN) as u64 + 0x8000_0000_0000_0000
    }
}

/// Appends to `bytes` the `count` low bytes of `raw`, the least significant
/// first.
fn push_le(bytes: &mut Vec<u8>, raw: u64, count: usize)
    requires
        count <= 8,
    ensures
        final(bytes)@ == old(bytes)@ + Seq::new(count as nat, |i: int| byte_of(raw as int, i)),
{
    let ghost start = bytes@;
    let mut rest = raw;
    let mut index: usize = 0;
    while index < count
        invariant
            index <= count <= 8,
            bytes@ == start + Seq::new(index as nat, |i: int| byte_of(raw as int, i)),
            rest as int == shifted(raw as int, index as int),
        decreases count - index,
    {
        bytes.push((rest % 0x100) as u8);
        rest = rest / 0x100;
        index += 1;
        assert(bytes@ =~= start + Seq::new(index as nat, |i: int| byte_of(raw as int, i)));
    }
}

/// Encodes a value: its tag byte, then its payload. `Empty` has no payload,
/// and its tag byte is one that selects no numeric kind.
pub fn encode(value: NativeTypes) -> (bytes: Vec<u8>)
    ensures
        bytes@ == encoding(value),
{
    let mut bytes: Vec<u8> = Vec::new();
    match value {
        NativeTypes::Empty => {
            bytes.push(0xff);
        },
        NativeTypes::U8(x) => {
            bytes.push(0);
            push_le(&mut bytes, x as u64, 1);
        },
        NativeTypes::I8(x) => {
            bytes.push(1);
            push_le(&mut bytes, from_i8(x) as u64, 1);
        },
        NativeTypes::U16(x) => {
            bytes.push(2);
            bytes.push((x / 0x100) as u8);
            bytes.push((x % 0x100) as u8);
        },
        NativeTypes::I16(x) => {
            let raw = from_i16(x);
            bytes.push(3);
            bytes.push((raw / 0x100) as u8);
            bytes.push((raw % 0x100) as u8);
        },
        NativeTypes::U32(x) => {
            bytes.push(4);
            push_le(&mut bytes, x as u64, 4);
        },
        NativeTypes::I32(x) => {
            bytes.push(5);
            push_le(&mut bytes, from_i32(x) as u64, 4);
        },
        NativeTypes::U64(x) => {
            bytes.push(6);
            push_le(&mut bytes, x, 8);
        },
        NativeTypes::I64(x) => {
            bytes.push(7);
            push_le(&mut bytes, from_i64(x), 8);
        },
        NativeTypes::F32(x) => {
            bytes.push(8);
            push_le(&mut bytes, x as u64, 4);
        },
        NativeTypes::F64(x) => {
            bytes.push(9);
            push_le(&mut bytes, x, 8);
        },
    }
    assert(bytes@ =~= encoding(value));
    bytes
}

/// The two low bytes of a number below 2^16 make up the number.
proof fn lemma_bytes_of_16(n: int)
    requires
        0 <= n < 0x1_0000,
    ensures
        byte_of(n, 1) * 0x100 + byte_of(n, 0) == n,
{
}

/// The four low bytes of a number below 2^32 make up the number.
proof fn lemma_bytes_of_32(n: int)
    requires
        0 <= n < 0x1_0000_0000,
    ensures
        byte_of(n, 0) + byte_of(n, 1) * 0x100 + byte_of(n, 2) * 0x1_0000 + byte_of(n, 3)
            * 0x100_0000 == n,
{
    let q1 = n / 0x100;
    let q2 = n / 0x1_0000;
    let q3 = n / 0x100_0000;
    assert(q2 == q1 / 0x100);
    assert(q3 == q2 / 0x100);
}

/// The eight bytes of a number below 2^64 make up the number.
proof fn lemma_bytes_of_64(n: int)
    requires
        0 <= n < 0x1_0000_0000_0000_0000,
    ensures
        byte_of(n, 0) + byte_of(n, 1) * 0x100 + byte_of(n, 2) * 0x1_0000 + byte_of(n, 3)
            * 0x100_0000 + (byte_of(n, 4) + byte_of(n, 5) * 0x100 + byte_of(n, 6) * 0x1_0000
            + byte_of(n, 7) * 0x100_0000) * 0x1_0000_0000 == n,
{
    let low = n % 0x1_0000_0000;
    let high = n / 0x1_0000_0000;
    assert(byte_of(n, 0) == byte_of(low, 0));
    assert(byte_of(n, 1) == byte_of(low, 1)) by {
        assert(n / 0x100 == high * 0x100_0000 + low / 0x100);
    }
    assert(byte_of(n, 2) == byte_of(low, 2)) by {
        assert(n / 0x1_0000 == high * 0x1_0000 + low / 0x1_0000);
    }
    assert(byte_of(n, 3) == byte_of(low, 3)) by {
        assert(n / 0x100_0000 == high * 0x100 + low / 0x100_0000);
    }
    assert(byte_of(n, 4) == byte_of(high, 0));
    assert(byte_of(n, 5) == byte_of(high, 1)) by {
        assert(n / 0x100_0000_0000 == high / 0x100);
    }
    assert(byte_of(n, 6) == byte_of(high, 2)) by {
        assert(n / 0x1_0000_0000_0000 == high / 0x1_0000);
    }
    assert(byte_of(n, 7) == byte_of(high, 3)) by {
        assert(n / 0x100_0000_0000_0000 == high / 0x100_0000);
    }
    lemma_bytes_of_32(low);
    lemma_bytes_of_32(high);
}

/// Reading the payload bytes of a value gives back the number they were made
/// from.
proof fn lemma_payload_round_trip(value: NativeTypes, bytes: Seq<u8>, at: int)
    requires
        0 <= at,
        at + value.kind().width() <= bytes.len(),
        bytes.subrange(at, at + value.kind().width()) == payload_bytes(value),
    ensures
        raw_at(bytes, value.kind(), at) == unsigned(value.payload(), value.kind().modulus()),
{
    let kind = value.kind();
    let raw = unsigned(value.payload(), kind.modulus());
    let window = bytes.subrange(at, at + kind.width());
    if kind.width() == 1 {
        assert(window[0] == bytes[at]);
    } else if kind.width() == 2 {
        assert(window[0] == bytes[at]);
        assert(window[1] == bytes[at + 1]);
        lemma_bytes_of_16(raw);
    } else if kind.width() == 4 {
        assert(window[0] == bytes[at]);
        assert(window[1] == bytes[at + 1]);
        assert(window[2] == bytes[at + 2]);
        assert(window[3] == bytes[at + 3]);
        lemma_bytes_of_32(raw);
    } else if kind.width() == 8 {
        assert(window[0] == bytes[at]);
        assert(window[1] == bytes[at + 1]);
        assert(window[2] == bytes[at + 2]);
        assert(window[3] == bytes[at + 3]);
        assert(window[4] == bytes[at + 4]);
        assert(window[5] == bytes[at + 5]);
        assert(window[6] == bytes[at + 6]);
        assert(window[7] == bytes[at + 7]);
        lemma_bytes_of_64(raw);
    }
}

/// Decoding an encoded value gives the value back, wherever the encoding
/// stands in a program: one-byte kinds as they are, sixteen-bit kinds by
/// big-endian order, wider kinds by little-endian order.
pub proof fn lemma_encoding_round_trip(value: NativeTypes, bytes: Seq<u8>, at: int)
    requires
        0 <= at,
        at + encoding(value).len() <= bytes.len(),
        bytes.subrange(at, at + encoding(value).len()) == encoding(value),
    ensures
        encoding(value).len() == 1 + value.kind().width(),
        typed_value_at(bytes, at) == Some((value, at + 1 + value.kind().width())),
{
    let code = encoding(value);
    let kind = value.kind();
    assert(code.len() == 1 + kind.width());
    assert(bytes.subrange(at, at + code.len())[0] == bytes[at]);
    assert(Kind::of_tag(bytes[at]) == kind);
    assert(bytes.subrange(at + 1, at + 1 + kind.width()) == payload_bytes(value)) by {
        assert(bytes.subrange(at + 1, at + 1 + kind.width()) =~= bytes.subrange(
            at,
            at + code.len(),
        ).subrange(1, 1 + kind.width()));
        assert(code.subrange(1, 1 + kind.width()) =~= payload_bytes(value));
    }
    lemma_payload_round_trip(value, bytes, at + 1);
}

/// Encoding a value and decoding the bytes gives the value back, and the
/// decoder has then read every byte of the encoding.
pub proof fn lemma_round_trip(value: NativeTypes)
    ensures
        typed_value_at(encoding(value), 0) == Some((value, encoding(value).len() as int)),
{
    let code = encoding(value);
    assert(code.subrange(0, code.len() as int) =~= code);
    lemma_encoding_round_trip(value, code, 0);
}

/// A `Load` instruction written as its opcode byte, a register byte and an
/// encoded value decodes to a load of that value into that register.
pub proof fn lemma_load_round_trip(register: u8, value: NativeTypes)
    ensures
        decode_at(seq![OP_LOAD, register] + encoding(value), 0) == Some(
            (Opcode::LOAD(register as usize, value), 3 + value.kind().width()),
        ),
{
    let program = seq![OP_LOAD, register] + encoding(value);
    assert(program.subrange(2, 2 + encoding(value).len() as int) =~= encoding(value));
    lemma_encoding_round_trip(value, program, 2);
}

} // verus!
