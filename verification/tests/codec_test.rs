use ryde::array::DynamicArray;
use ryde::heap::Heap;
use ryde::instruction::Instruction;
use ryde::object::Object;
use ryde::serde::deserializer::deserialize;
use ryde::serde::record::{take_instruction, Record};
use ryde::serde::serializer::serialize;
use ryde::serde::wire::{
    put_bool, put_text, put_u64, put_usize, put_value, put_values, take_bool, take_text, take_u64,
    take_usize, take_value, take_values,
};
use ryde::serde::{Program, ProgramError, CURRENT_VERSION};
use ryde::value::VmValue;
use ryde::vm::Vm;

fn text(s: &str) -> VmValue {
    VmValue::String(s.to_string())
}

fn written_u64(x: u64) -> Vec<u8> {
    let mut out = Vec::new();
    put_u64(&mut out, x);
    out
}

/// Whether two values are the same in every respect, which `==` on values does not ask.
fn same(a: &VmValue, b: &VmValue) -> bool {
    match (a, b) {
        (VmValue::Float(x), VmValue::Float(y)) => x == y,
        (VmValue::Int(x), VmValue::Int(y)) => x == y,
        (VmValue::String(x), VmValue::String(y)) => x == y,
        (VmValue::Boolean(x), VmValue::Boolean(y)) => x == y,
        (VmValue::DynamicArray(x), VmValue::DynamicArray(y)) => x.id == y.id,
        (VmValue::Object(x), VmValue::Object(y)) => x.id == y.id,
        (VmValue::Null, VmValue::Null) => true,
        _ => false,
    }
}

fn same_values(a: &[VmValue], b: &[VmValue]) -> bool {
    a.len() == b.len() && a.iter().zip(b).all(|(x, y)| same(x, y))
}

fn same_heap(a: &Heap, b: &Heap) -> bool {
    a.arrays.len() == b.arrays.len()
        && a.objects.len() == b.objects.len()
        && a.arrays.iter().zip(&b.arrays).all(|(x, y)| same_values(x, y))
        && a.objects.iter().zip(&b.objects).all(|(x, y)| {
            x.len() == y.len()
                && x.iter().zip(y).all(|(e, f)| same(&e.0, &f.0) && same(&e.1, &f.1))
        })
}

fn same_program(a: &Program, b: &Program) -> bool {
    a.version == b.version
        && same_values(&a.constant_pool, &b.constant_pool)
        && a.instructions.len() == b.instructions.len()
        && a.instructions
            .iter()
            .zip(&b.instructions)
            .all(|(x, y)| format!("{:?}", x) == format!("{:?}", y))
        && same_heap(&a.heap, &b.heap)
}

fn every_instruction() -> Vec<Instruction> {
    let v = || VmValue::Int(-3);
    let n = || "name".to_string();
    vec![
        Instruction::LOADV { target: 1, value: text("héllo") },
        Instruction::ADD { target: 1, a: 2, b: 3 },
        Instruction::SUB { target: 1, a: 2, b: 3 },
        Instruction::MUL { target: 1, a: 2, b: 3 },
        Instruction::DIV { target: 1, a: 2, b: 3 },
        Instruction::IDIV { target: 1, a: 2, b: 3 },
        Instruction::POW { target: 1, a: 2, b: 3 },
        Instruction::MOD { target: 1, a: 2, b: 3 },
        Instruction::ADDK { target: 1, a_value: v(), b: 3 },
        Instruction::SUBK { target: 1, a_value: v(), b: 3 },
        Instruction::MULK { target: 1, a_value: v(), b: 3 },
        Instruction::DIVK { target: 1, a_value: v(), b: 3 },
        Instruction::IDIVK { target: 1, a_value: v(), b: 3 },
        Instruction::POWK { target: 1, a_value: v(), b: 3 },
        Instruction::MODK { target: 1, a_value: v(), b: 3 },
        Instruction::BXOR { target: 1, a: 2, b: 3 },
        Instruction::BAND { target: 1, a: 2, b: 3 },
        Instruction::BOR { target: 1, a: 2, b: 3 },
        Instruction::BLSH { target: 1, a: 2, b: 3 },
        Instruction::BRSH { target: 1, a: 2, b: 3 },
        Instruction::BARSH { target: 1, a: 2, b: 3 },
        Instruction::BNOT { target: 1, operand: 2 },
        Instruction::NEGATE { target: 1, operand: 2 },
        Instruction::AND { target: 1, a: 2, b: 3 },
        Instruction::OR { target: 1, a: 2, b: 3 },
        Instruction::ANDK { target: 1, a_value: VmValue::Boolean(true), b: 3 },
        Instruction::ORK { target: 1, a_value: VmValue::Null, b: 3 },
        Instruction::NULL_COALESCE { target: 1, a: 2, b: 3 },
        Instruction::EQ { target: 1, a: 2, b: 3 },
        Instruction::NEQ { target: 1, a: 2, b: 3 },
        Instruction::LT { target: 1, a: 2, b: 3 },
        Instruction::LTE { target: 1, a: 2, b: 3 },
        Instruction::GT { target: 1, a: 2, b: 3 },
        Instruction::GTE { target: 1, a: 2, b: 3 },
        Instruction::NOT { target: 1, operand: 2 },
        Instruction::INC { target: Some(0), name: n(), returns_old: true },
        Instruction::INC { target: None, name: n(), returns_old: false },
        Instruction::DEC { target: Some(70000), name: String::new(), returns_old: false },
        Instruction::INDEX { target: 1, object: 2, index: 3 },
        Instruction::INDEXN { target: 1, object: 2, index: usize::MAX },
        Instruction::INDEXK { target: 1, object: 2, index: VmValue::Float(1.5f64.to_bits()) },
        Instruction::STORE_INDEX { source: 1, object: 2, index: 3 },
        Instruction::STORE_INDEXN { source: 1, object: 2, index: 300 },
        Instruction::STORE_INDEXK { source: 1, object: 2, index: text("") },
        Instruction::DELETE_INDEX { object: 2, index: 3 },
        Instruction::DELETE_INDEXN { object: 2, index: 3 },
        Instruction::DELETE_INDEXK { object: 2, index: VmValue::Boolean(false) },
        Instruction::NEW_OBJECT(4),
        Instruction::NEW_ARRAY(5),
        Instruction::ARRAY_PUSH { target: 1, source: 2 },
        Instruction::ARRAY_PUSHK { target: 1, value: VmValue::DynamicArray(DynamicArray { id: 0 }) },
        Instruction::LEN { target: 1, source: 2 },
        Instruction::JMP(0),
        Instruction::JZ { source: 1, address: 2 },
        Instruction::JNZ { source: 1, address: 2 },
        Instruction::JLT { a: 1, b: 2, address: 3 },
        Instruction::JLTE { a: 1, b: 2, address: 3 },
        Instruction::JGT { a: 1, b: 2, address: 3 },
        Instruction::JGTE { a: 1, b: 2, address: 3 },
        Instruction::JEQ { a: 1, b: 2, address: 3 },
        Instruction::JNEQ { a: 1, b: 2, address: 3 },
        Instruction::STORE { source: 1, name: n() },
        Instruction::STOREK { name: n(), value: VmValue::Object(Object { id: 0 }) },
        Instruction::LOAD { target: 1, name: n() },
        Instruction::CALL(4_000_000_000),
        Instruction::RETURN,
        Instruction::PRINT(6),
        Instruction::PRINTK(VmValue::Int(i32::MIN)),
        Instruction::HALT,
    ]
}

#[test]
fn integers_are_written_in_the_shortest_form() {
    assert_eq!(written_u64(0), vec![0]);
    assert_eq!(written_u64(250), vec![250]);
    assert_eq!(written_u64(251), vec![251, 251, 0]);
    assert_eq!(written_u64(300), vec![251, 44, 1]);
    assert_eq!(written_u64(65535), vec![251, 255, 255]);
    assert_eq!(written_u64(65536), vec![252, 0, 0, 1, 0]);
    assert_eq!(written_u64(0xFFFF_FFFF), vec![252, 255, 255, 255, 255]);
    assert_eq!(written_u64(0x1_0000_0000), vec![253, 0, 0, 0, 0, 1, 0, 0, 0]);
    assert_eq!(written_u64(u64::MAX), vec![253, 255, 255, 255, 255, 255, 255, 255, 255]);
}

#[test]
fn integers_are_read_back() {
    for x in [0, 1, 250, 251, 300, 65535, 65536, 0xFFFF_FFFF, 0x1_0000_0000, u64::MAX] {
        let mut bytes = vec![9, 9];
        put_u64(&mut bytes, x);
        let end = bytes.len();
        bytes.push(7);
        assert_eq!(take_u64(&bytes, 2), Some((x, end)), "{}", x);
    }
}

#[test]
fn an_integer_need_not_stand_in_its_shortest_form() {
    assert_eq!(take_u64(&[251, 5, 0], 0), Some((5, 3)));
    assert_eq!(take_u64(&[253, 1, 0, 0, 0, 0, 0, 0, 0, 99], 0), Some((1, 9)));
}

#[test]
fn a_cut_or_marked_integer_is_refused() {
    assert_eq!(take_u64(&[], 0), None);
    assert_eq!(take_u64(&[1], 1), None);
    assert_eq!(take_u64(&[251, 1], 0), None);
    assert_eq!(take_u64(&[252, 1, 2, 3], 0), None);
    assert_eq!(take_u64(&[253, 1, 2, 3, 4, 5, 6, 7], 0), None);
    assert_eq!(take_u64(&[254, 0, 0, 0, 0, 0, 0, 0, 0, 0, 0, 0, 0, 0, 0, 0, 0], 0), None);
    assert_eq!(take_u64(&[255, 0, 0, 0, 0, 0, 0, 0, 0, 0], 0), None);
}

#[test]
fn truth_values_and_sizes() {
    let mut out = Vec::new();
    put_bool(&mut out, true);
    put_bool(&mut out, false);
    put_usize(&mut out, 1000);
    assert_eq!(out, vec![1, 0, 251, 232, 3]);
    assert_eq!(take_bool(&out, 0), Some((true, 1)));
    assert_eq!(take_bool(&out, 1), Some((false, 2)));
    assert_eq!(take_bool(&[2], 0), None);
    assert_eq!(take_usize(&out, 2), Some((1000, 5)));
}

#[test]
fn a_text_is_its_length_and_its_bytes() {
    let mut out = Vec::new();
    put_text(&mut out, "hé");
    assert_eq!(out, vec![3, b'h', 0xC3, 0xA9]);
    assert_eq!(take_text(&out, 0), Some(("hé".to_string(), 4)));
    let mut empty = Vec::new();
    put_text(&mut empty, "");
    assert_eq!(empty, vec![0]);
    assert_eq!(take_text(&empty, 0), Some((String::new(), 1)));
}

#[test]
fn a_text_that_is_cut_or_no_utf8_is_refused() {
    assert_eq!(take_text(&[3, b'h', 0xC3], 0), None);
    assert_eq!(take_text(&[2, b'h', 0xC3], 0), None);
    assert_eq!(take_text(&[1, 0xFF], 0), None);
    assert_eq!(take_text(&[253, 255, 255, 255, 255, 255, 255, 255, 255, 1], 0), None);
}

#[test]
fn values_are_a_tag_and_what_they_hold() {
    let cases: Vec<(VmValue, Vec<u8>)> = vec![
        (VmValue::Float(1), vec![0, 1]),
        (VmValue::Int(5), vec![1, 5]),
        (VmValue::Int(-1), vec![1, 252, 255, 255, 255, 255]),
        (text("a"), vec![2, 1, b'a']),
        (VmValue::Boolean(true), vec![3, 1]),
        (VmValue::DynamicArray(DynamicArray { id: 7 }), vec![4, 7]),
        (VmValue::Object(Object { id: 8 }), vec![5, 8]),
        (VmValue::Null, vec![6]),
    ];
    for (value, bytes) in cases {
        let mut out = Vec::new();
        put_value(&mut out, &value);
        assert_eq!(out, bytes, "{:?}", value);
        let (read, next) = take_value(&out, 0).unwrap();
        assert!(same(&read, &value), "{:?}", value);
        assert_eq!(next, out.len());
    }
}

#[test]
fn a_value_with_an_unknown_tag_or_a_bad_payload_is_refused() {
    assert!(take_value(&[7], 0).is_none());
    assert!(take_value(&[], 0).is_none());
    assert!(take_value(&[1], 0).is_none());
    assert!(take_value(&[3, 2], 0).is_none());
    // an integer beyond 32 bits
    assert!(take_value(&[1, 253, 0, 0, 0, 0, 1, 0, 0, 0], 0).is_none());
}

#[test]
fn sequences_of_values() {
    let values = vec![VmValue::Int(1), text("a"), VmValue::Null];
    let mut out = Vec::new();
    put_values(&mut out, &values);
    assert_eq!(out, vec![3, 1, 1, 2, 1, b'a', 6]);
    let (read, next) = take_values(&out, 0).unwrap();
    assert!(same_values(&read, &values));
    assert_eq!(next, 7);
    assert!(take_values(&[3, 1, 1, 6], 0).is_none());
    assert!(take_values(&[0], 0).unwrap().0.is_empty());
}

#[test]
fn the_smallest_program_in_bytes() {
    let program = Program::from_instructions(vec![Instruction::HALT]);
    assert_eq!(serialize(&program), vec![0, 0, 1, 67, 0, 0, 0, 0, 0, 6, 0, 0, 0]);
    let empty = Program::from_instructions(vec![]);
    assert_eq!(serialize(&empty), vec![CURRENT_VERSION, 0, 0, 0, 0]);
}

#[test]
fn an_instruction_in_bytes() {
    let program = Program::from_instructions(vec![Instruction::INC {
        target: Some(300),
        name: "x".to_string(),
        returns_old: true,
    }]);
    assert_eq!(
        serialize(&program),
        vec![0, 0, 1, 35, 251, 44, 1, 0, 0, 1, 1, 6, 1, b'x', 0, 0]
    );
}

#[test]
fn every_instruction_is_read_back() {
    for instruction in every_instruction() {
        let expected = format!("{:?}", instruction);
        let program = Program::from_instructions(vec![instruction]);
        let read = deserialize(serialize(&program)).unwrap();
        assert_eq!(read.instructions.len(), 1);
        assert_eq!(format!("{:?}", read.instructions[0]), expected);
    }
}

#[test]
fn a_program_is_read_back() {
    let mut heap = Heap::new();
    let array = DynamicArray::new(&mut heap);
    let object = Object::new(&mut heap);
    let nested = DynamicArray::new(&mut heap);
    array.push(&mut heap, VmValue::Int(1));
    array.push(&mut heap, VmValue::DynamicArray(nested));
    array.push(&mut heap, VmValue::Float(f64::NAN.to_bits()));
    object.new_index(&mut heap, text("k"), VmValue::Object(object));
    object.new_index(&mut heap, VmValue::Int(-1), text("ünïcödé"));
    let program = Program::with_heap(
        every_instruction(),
        vec![VmValue::Int(1), text("pool"), VmValue::DynamicArray(array)],
        heap,
    );
    let bytes = serialize(&program);
    let read = deserialize(bytes.clone()).unwrap();
    assert!(same_program(&read, &program));
    assert_eq!(read.version, CURRENT_VERSION);
    // what was read is written as the same bytes again
    assert_eq!(serialize(&read), bytes);
}

#[test]
fn a_program_that_was_read_runs_as_the_one_that_was_written() {
    let mut heap = Heap::new();
    let array = DynamicArray::new_vm_value(&mut heap);
    let program = Program::with_heap(
        vec![
            Instruction::LOADV { target: 0, value: array },
            Instruction::ARRAY_PUSHK { target: 0, value: VmValue::Int(41) },
            Instruction::INDEXN { target: 1, object: 0, index: 0 },
            Instruction::ADDK { target: 1, a_value: VmValue::Int(1), b: 1 },
            Instruction::HALT,
        ],
        vec![],
        heap,
    );
    let read = deserialize(serialize(&program)).unwrap();
    let mut vm = Vm::new(&read, 2);
    vm.run().unwrap();
    assert_eq!(vm.registers[1], VmValue::Int(42));
}

#[test]
fn bytes_behind_the_program_are_not_looked_at() {
    let program = Program::from_instructions(vec![Instruction::HALT]);
    let mut bytes = serialize(&program);
    bytes.extend_from_slice(&[255, 255, 255]);
    let read = deserialize(bytes).unwrap();
    assert!(same_program(&read, &program));
}

#[test]
fn another_version_is_refused() {
    let mut program = Program::from_instructions(vec![Instruction::HALT]);
    program.version = 3;
    assert_eq!(deserialize(serialize(&program)).err(), Some(ProgramError::UnsupportedVersion(3)));
    // the version is looked at before anything else
    assert_eq!(deserialize(vec![9]).err(), Some(ProgramError::UnsupportedVersion(9)));
    assert_eq!(deserialize(vec![251, 255, 0]).err(), Some(ProgramError::UnsupportedVersion(255)));
}

#[test]
fn bytes_that_are_no_program_are_refused() {
    assert_eq!(deserialize(vec![]).err(), Some(ProgramError::DecodeError));
    // a version that is no byte
    assert_eq!(deserialize(vec![251, 0, 1]).err(), Some(ProgramError::DecodeError));
    let program = Program::from_instructions(vec![Instruction::HALT]);
    let bytes = serialize(&program);
    for cut in 0..bytes.len() {
        assert_eq!(
            deserialize(bytes[..cut].to_vec()).err(),
            Some(ProgramError::DecodeError),
            "cut at {}",
            cut
        );
    }
    // an operation that does not exist
    assert_eq!(
        deserialize(vec![0, 0, 1, 68, 0, 0, 0, 0, 0, 6, 0, 0, 0]).err(),
        Some(ProgramError::DecodeError)
    );
    // an operand that the operation does not have
    assert_eq!(
        deserialize(vec![0, 0, 1, 67, 1, 0, 0, 0, 0, 6, 0, 0, 0]).err(),
        Some(ProgramError::DecodeError)
    );
    assert_eq!(
        deserialize(vec![0, 0, 1, 67, 0, 0, 0, 0, 0, 6, 1, b'x', 0, 0]).err(),
        Some(ProgramError::DecodeError)
    );
}

#[test]
fn records_of_instructions() {
    let record = Record::of(&Instruction::ADD { target: 1, a: 2, b: 3 });
    assert_eq!((record.opcode, record.x, record.y, record.z), (1, 1, 2, 3));
    assert!(!record.flag && !record.some);
    assert!(record.is_well_shaped());
    match record.instruction() {
        Some(Instruction::ADD { target: 1, a: 2, b: 3 }) => {}
        other => panic!("the record is that of an addition, got {:?}", other),
    }
    let counter = Record::of(&Instruction::DEC {
        target: Some(4),
        name: "n".to_string(),
        returns_old: true,
    });
    assert_eq!((counter.opcode, counter.x, counter.flag, counter.some), (36, 4, true, true));
    assert_eq!(counter.name, "n");
    let mut bad = Record::of(&Instruction::HALT);
    bad.y = 1;
    assert!(!bad.is_well_shaped());
    assert!(bad.instruction().is_none());
    let mut unknown = Record::of(&Instruction::HALT);
    unknown.opcode = 68;
    assert!(unknown.instruction().is_none());
    let mut absent = Record::of(&Instruction::INC {
        target: None,
        name: "n".to_string(),
        returns_old: false,
    });
    absent.x = 1;
    assert!(absent.instruction().is_none());
}

#[test]
fn an_instruction_is_read_from_a_position() {
    let program = Program::from_instructions(vec![Instruction::JMP(9)]);
    let bytes = serialize(&program);
    match take_instruction(&bytes, 3) {
        Some((Instruction::JMP(9), next)) => assert_eq!(next, bytes.len() - 2),
        other => panic!("a jump stands there, got {:?}", other),
    }
    assert!(take_instruction(&bytes, bytes.len()).is_none());
}
