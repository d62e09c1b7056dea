use vm::encoding::encode;
use vm::instructions::{NativeTypes, Opcode};
use vm::vm::VM;

fn engine_on(program: Vec<u8>) -> VM {
    let mut vm = VM::new();
    vm.program = program;
    vm
}

fn tagged(tag: u8, payload: &[u8]) -> Vec<u8> {
    let mut bytes = vec![tag];
    bytes.extend_from_slice(payload);
    bytes
}

fn decoded(bytes: Vec<u8>) -> Option<NativeTypes> {
    let length = bytes.len();
    let mut vm = engine_on(bytes);
    let value = vm.decode_type();
    if value.is_some() {
        assert_eq!(vm.pc, length);
    } else {
        assert_eq!(vm.pc, 0);
    }
    value
}

#[test]
fn one_byte_values_round_trip() {
    for x in [0u8, 1, 127, 128, 255] {
        assert_eq!(decoded(tagged(0, &[x])), Some(NativeTypes::U8(x)));
    }
    for x in [0i8, 1, -1, 127, -128] {
        assert_eq!(decoded(tagged(1, &x.to_be_bytes())), Some(NativeTypes::I8(x)));
    }
}

#[test]
fn sixteen_bit_values_round_trip_big_endian() {
    for x in [0u16, 1, 255, 256, 0x1234, 0x8000, u16::MAX] {
        assert_eq!(decoded(tagged(2, &x.to_be_bytes())), Some(NativeTypes::U16(x)));
    }
    for x in [0i16, 1, -1, 0x1234, -0x1234, i16::MAX, i16::MIN] {
        assert_eq!(decoded(tagged(3, &x.to_be_bytes())), Some(NativeTypes::I16(x)));
    }
    assert_eq!(decoded(vec![2, 0x12, 0x34]), Some(NativeTypes::U16(0x1234)));
    assert_eq!(decoded(vec![3, 0xff, 0xfe]), Some(NativeTypes::I16(-2)));
}

#[test]
fn wider_values_round_trip_little_endian() {
    for x in [0u32, 1, 0x1234_5678, 0x8000_0000, u32::MAX] {
        assert_eq!(decoded(tagged(4, &x.to_le_bytes())), Some(NativeTypes::U32(x)));
    }
    for x in [0i32, -8, 8, 0x1234_5678, i32::MAX, i32::MIN] {
        assert_eq!(decoded(tagged(5, &x.to_le_bytes())), Some(NativeTypes::I32(x)));
    }
    for x in [0u64, 1, 0x0123_4567_89ab_cdef, 1 << 63, u64::MAX] {
        assert_eq!(decoded(tagged(6, &x.to_le_bytes())), Some(NativeTypes::U64(x)));
    }
    for x in [0i64, -1, 0x0123_4567_89ab_cdef, i64::MAX, i64::MIN] {
        assert_eq!(decoded(tagged(7, &x.to_le_bytes())), Some(NativeTypes::I64(x)));
    }
    assert_eq!(decoded(vec![4, 0x78, 0x56, 0x34, 0x12]), Some(NativeTypes::U32(0x1234_5678)));
    assert_eq!(decoded(vec![5, 248, 255, 255, 255]), Some(NativeTypes::I32(-8)));
}

#[test]
fn floating_values_round_trip_little_endian() {
    for x in [0.0f32, -0.0, 23.5, 34.29, f32::MAX, f32::MIN_POSITIVE, f32::INFINITY] {
        assert_eq!(decoded(tagged(8, &x.to_le_bytes())), Some(NativeTypes::F32(x.to_bits())));
    }
    for x in [0.0f64, -0.0, 23.5, 806.75507, f64::MAX, f64::NEG_INFINITY] {
        assert_eq!(decoded(tagged(9, &x.to_le_bytes())), Some(NativeTypes::F64(x.to_bits())));
    }
    match decoded(tagged(8, &f32::NAN.to_le_bytes())) {
        Some(NativeTypes::F32(bits)) => assert!(f32::from_bits(bits).is_nan()),
        other => panic!("{:?}", other),
    }
    assert_eq!(decoded(vec![8, 0, 0, 188, 65]), Some(NativeTypes::F32(23.5f32.to_bits())));
}

#[test]
fn unknown_tag_is_the_empty_value() {
    for tag in [10u8, 11, 100, 255] {
        let mut vm = engine_on(vec![tag, 1, 2, 3]);
        assert_eq!(vm.decode_type(), Some(NativeTypes::Empty));
        assert_eq!(vm.pc, 1);
    }
}

#[test]
fn value_that_runs_past_the_end_is_not_decoded() {
    assert_eq!(decoded(vec![]), None);
    assert_eq!(decoded(vec![0]), None);
    assert_eq!(decoded(vec![1]), None);
    assert_eq!(decoded(vec![2, 1]), None);
    assert_eq!(decoded(vec![3, 1]), None);
    assert_eq!(decoded(vec![4, 1, 2, 3]), None);
    assert_eq!(decoded(vec![5]), None);
    assert_eq!(decoded(vec![6, 1, 2, 3, 4, 5, 6, 7]), None);
    assert_eq!(decoded(vec![7, 1, 2, 3, 4]), None);
    assert_eq!(decoded(vec![8, 1, 2, 3]), None);
    assert_eq!(decoded(vec![9, 1, 2, 3, 4, 5, 6, 7]), None);
}

#[test]
fn value_is_decoded_where_the_counter_stands() {
    let mut vm = engine_on(vec![9, 9, 9, 5, 8, 0, 0, 0, 7]);
    vm.pc = 3;
    assert_eq!(vm.decode_type(), Some(NativeTypes::I32(8)));
    assert_eq!(vm.pc, 8);
    vm.pc = 9;
    assert_eq!(vm.decode_type(), None);
    assert_eq!(vm.pc, 9);
    vm.pc = usize::MAX;
    assert_eq!(vm.decode_type(), None);
    assert_eq!(vm.pc, usize::MAX);
}

#[test]
fn each_opcode_byte_decodes_to_its_instruction() {
    let mut vm = engine_on(vec![0]);
    assert_eq!(vm.decode(), Some(Opcode::HLT));
    assert_eq!(vm.pc, 1);
    let mut vm = engine_on(vec![1, 7, 5, 248, 255, 255, 255]);
    assert_eq!(vm.decode(), Some(Opcode::LOAD(7, NativeTypes::I32(-8))));
    assert_eq!(vm.pc, 7);
    let mut vm = engine_on(vec![2, 0, 1, 2]);
    assert_eq!(vm.decode(), Some(Opcode::ADD(0, 1, 2)));
    assert_eq!(vm.pc, 4);
    let mut vm = engine_on(vec![3, 3, 4, 5]);
    assert_eq!(vm.decode(), Some(Opcode::SUB(3, 4, 5)));
    assert_eq!(vm.pc, 4);
    let mut vm = engine_on(vec![4, 31, 30, 29]);
    assert_eq!(vm.decode(), Some(Opcode::MUL(31, 30, 29)));
    assert_eq!(vm.pc, 4);
    let mut vm = engine_on(vec![5, 255, 0, 200]);
    assert_eq!(vm.decode(), Some(Opcode::DIV(255, 0, 200)));
    assert_eq!(vm.pc, 4);
    for byte in [6u8, 9, 128, 255] {
        let mut vm = engine_on(vec![byte, 1, 2, 3]);
        assert_eq!(vm.decode(), Some(Opcode::IGL));
        assert_eq!(vm.pc, 1);
    }
}

#[test]
fn load_length_depends_on_the_tag() {
    let cases: [(u8, usize); 11] =
        [(0, 4), (1, 4), (2, 5), (3, 5), (4, 7), (5, 7), (6, 11), (7, 11), (8, 7), (9, 11), (10, 3)];
    for (tag, length) in cases {
        let mut program = vec![1, 0, tag];
        program.extend_from_slice(&[0; 8]);
        let mut vm = engine_on(program);
        assert!(vm.decode().is_some());
        assert_eq!(vm.pc, length);
    }
}

#[test]
fn instruction_that_runs_past_the_end_is_not_decoded() {
    for program in [
        vec![],
        vec![1u8],
        vec![1, 0],
        vec![1, 0, 0],
        vec![1, 0, 5, 1, 2, 3],
        vec![2],
        vec![2, 0, 1],
        vec![5, 0, 1],
    ] {
        let mut vm = engine_on(program);
        assert_eq!(vm.decode(), None);
        assert_eq!(vm.pc, 0);
    }
}

#[test]
fn decoding_leaves_registers_and_program_alone() {
    let program = vec![1, 4, 0, 9, 2, 0, 1, 2];
    let mut vm = engine_on(program.clone());
    assert_eq!(vm.decode(), Some(Opcode::LOAD(4, NativeTypes::U8(9))));
    assert_eq!(vm.decode(), Some(Opcode::ADD(0, 1, 2)));
    assert_eq!(vm.decode(), None);
    assert_eq!(vm.pc, 8);
    assert_eq!(vm.registers, VM::new().registers);
    assert_eq!(vm.program, program);
}

#[test]
fn encode_writes_tag_then_payload() {
    assert_eq!(encode(NativeTypes::U8(200)), vec![0, 200]);
    assert_eq!(encode(NativeTypes::I8(-2)), vec![1, 254]);
    assert_eq!(encode(NativeTypes::U16(0x1234)), vec![2, 0x12, 0x34]);
    assert_eq!(encode(NativeTypes::I16(-2)), vec![3, 0xff, 0xfe]);
    assert_eq!(encode(NativeTypes::U32(0x1234_5678)), vec![4, 0x78, 0x56, 0x34, 0x12]);
    assert_eq!(encode(NativeTypes::I32(-8)), vec![5, 248, 255, 255, 255]);
    assert_eq!(encode(NativeTypes::I32(8)), vec![5, 8, 0, 0, 0]);
    assert_eq!(
        encode(NativeTypes::U64(0x0123_4567_89ab_cdef)),
        vec![6, 0xef, 0xcd, 0xab, 0x89, 0x67, 0x45, 0x23, 0x01]
    );
    assert_eq!(encode(NativeTypes::I64(-1)), vec![7, 255, 255, 255, 255, 255, 255, 255, 255]);
    assert_eq!(encode(NativeTypes::F32(23.5f32.to_bits())), vec![8, 0, 0, 188, 65]);
    assert_eq!(encode(NativeTypes::F64(1.0f64.to_bits())), vec![9, 0, 0, 0, 0, 0, 0, 0xf0, 0x3f]);
    assert_eq!(encode(NativeTypes::Empty), vec![0xff]);
}

#[test]
fn encode_agrees_with_the_byte_orders_of_the_machine() {
    for x in [0u16, 1, 0x1234, 0x8000, u16::MAX] {
        assert_eq!(encode(NativeTypes::U16(x)), tagged(2, &x.to_be_bytes()));
    }
    for x in [0i16, -1, 0x1234, i16::MIN, i16::MAX] {
        assert_eq!(encode(NativeTypes::I16(x)), tagged(3, &x.to_be_bytes()));
    }
    for x in [0i32, -1, -8, 0x1234_5678, i32::MIN, i32::MAX] {
        assert_eq!(encode(NativeTypes::I32(x)), tagged(5, &x.to_le_bytes()));
    }
    for x in [0i64, -1, 0x0123_4567_89ab_cdef, i64::MIN, i64::MAX] {
        assert_eq!(encode(NativeTypes::I64(x)), tagged(7, &x.to_le_bytes()));
    }
    for x in [0.0f32, -0.0, 34.29, f32::MAX, f32::NEG_INFINITY] {
        assert_eq!(encode(NativeTypes::F32(x.to_bits())), tagged(8, &x.to_le_bytes()));
    }
    for x in [0.0f64, 806.75507, f64::MIN_POSITIVE, f64::INFINITY] {
        assert_eq!(encode(NativeTypes::F64(x.to_bits())), tagged(9, &x.to_le_bytes()));
    }
}

#[test]
fn encoded_value_decodes_to_itself() {
    let values = [
        NativeTypes::Empty,
        NativeTypes::U8(0),
        NativeTypes::U8(255),
        NativeTypes::I8(-128),
        NativeTypes::I8(127),
        NativeTypes::U16(0x00ff),
        NativeTypes::U16(0xff00),
        NativeTypes::I16(-32768),
        NativeTypes::I16(-255),
        NativeTypes::U32(0x0102_0304),
        NativeTypes::U32(u32::MAX),
        NativeTypes::I32(i32::MIN),
        NativeTypes::I32(-8),
        NativeTypes::U64(0x0102_0304_0506_0708),
        NativeTypes::U64(u64::MAX),
        NativeTypes::I64(i64::MIN),
        NativeTypes::I64(-2),
        NativeTypes::F32(34.29f32.to_bits()),
        NativeTypes::F32(f32::NAN.to_bits()),
        NativeTypes::F64(806.75507f64.to_bits()),
        NativeTypes::F64((-0.0f64).to_bits()),
    ];
    for value in values {
        assert_eq!(decoded(encode(value)), Some(value));
    }
}

#[test]
fn encoded_load_decodes_to_the_load() {
    for value in [NativeTypes::I8(-1), NativeTypes::U16(513), NativeTypes::I64(-9), NativeTypes::Empty]
    {
        let mut program = vec![1, 17];
        program.extend(encode(value));
        let length = program.len();
        let mut vm = engine_on(program);
        assert_eq!(vm.decode(), Some(Opcode::LOAD(17, value)));
        assert_eq!(vm.pc, length);
    }
}
