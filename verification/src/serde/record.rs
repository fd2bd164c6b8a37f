//! Instructions as flat records, which is how they are written and read.

use crate::instruction::Instruction;
use crate::serde::wire::{
    enc_bool, enc_text, enc_value, lemma_text_round_trip, lemma_value_round_trip,
    lemma_varint_round_trip, parse_bool, parse_text, parse_value, parse_varint, put_bool,
    put_text, put_u64, put_value, take_bool, take_text, take_u64, take_value, value_fits, varint,
};
use crate::value::{Value, VmValue};
use vstd::prelude::*;
use vstd::string::*;
use vstd::utf8::encode_utf8;

verus! {

/// An instruction laid out flat for the codec: the number of its operation and one slot for
/// each kind of operand. An operation uses the slots that its shape names and leaves the
/// others at zero, false, `Null` and the empty text.
#[derive(Debug)]
pub struct Record {
    pub opcode: u64,
    pub x: u64,
    pub y: u64,
    pub z: u64,
    pub flag: bool,
    pub some: bool,
    pub value: VmValue,
    pub name: String,
}

/// The mathematical content of a [`Record`], and so of an instruction.
pub struct RecordView {
    pub opcode: u64,
    pub x: u64,
    pub y: u64,
    pub z: u64,
    pub flag: bool,
    pub some: bool,
    pub value: Value,
    pub name: Seq<char>,
}

impl View for Record {
    type V = RecordView;

    open spec fn view(&self) -> RecordView {
        RecordView {
            opcode: self.opcode,
            x: self.x,
            y: self.y,
            z: self.z,
            flag: self.flag,
            some: self.some,
            value: self.value@,
            name: self.name@,
        }
    }
}

/// Which slots of a record an operation uses.
#[derive(Debug, Clone, Copy, PartialEq, Eq, Structural)]
pub enum Shape {
    /// No operand.
    Bare,
    /// One number.
    One,
    /// Two numbers.
    Two,
    /// Three numbers.
    Three,
    /// One number and a value.
    OneValue,
    /// Two numbers and a value.
    TwoValue,
    /// A number that may be absent, a flag and a name.
    Counter,
    /// One number and a name.
    OneName,
    /// A name and a value.
    NameValue,
    /// A value.
    Value,
}

/// The record with nothing but the number of an operation.
pub open spec fn bare(opcode: u64) -> RecordView {
    RecordView {
        opcode,
        x: 0,
        y: 0,
        z: 0,
        flag: false,
        some: false,
        value: Value::Null,
        name: Seq::empty(),
    }
}

/// The shape of the operation with a number; none for a number that no operation has.
pub open spec fn shape_of(opcode: u64) -> Option<Shape> {
    if opcode == 0 || opcode == 45 || opcode == 49 {
        Some(Shape::OneValue)
    } else if 1 <= opcode <= 7 || 15 <= opcode <= 20 || 23 <= opcode <= 24 ||
        27 <= opcode <= 33 || 37 <= opcode <= 38 || 40 <= opcode <= 41 || 54 <= opcode <= 59 {
        Some(Shape::Three)
    } else if 8 <= opcode <= 14 || 25 <= opcode <= 26 || opcode == 39 || opcode == 42 {
        Some(Shape::TwoValue)
    } else if 21 <= opcode <= 22 || opcode == 34 || 43 <= opcode <= 44 || opcode == 48 ||
        opcode == 50 || 52 <= opcode <= 53 {
        Some(Shape::Two)
    } else if 35 <= opcode <= 36 {
        Some(Shape::Counter)
    } else if 46 <= opcode <= 47 || opcode == 51 || opcode == 63 || opcode == 65 {
        Some(Shape::One)
    } else if opcode == 60 || opcode == 62 {
        Some(Shape::OneName)
    } else if opcode == 61 {
        Some(Shape::NameValue)
    } else if opcode == 64 || opcode == 67 {
        Some(Shape::Bare)
    } else if opcode == 66 {
        Some(Shape::Value)
    } else {
        None
    }
}

/// Whether a record is that of an instruction: its operation exists, the numbers that the
/// operation uses are register numbers or addresses of this machine, and the slots that it
/// does not use are at rest.
#[verifier::opaque]
pub open spec fn well_shaped(r: RecordView) -> bool {
    let no_x = r.x == 0;
    let no_y = r.y == 0;
    let no_z = r.z == 0;
    let no_flags = !r.flag && !r.some;
    let no_value = r.value is Null;
    let no_name = r.name.len() == 0;
    let x = r.x <= usize::MAX;
    let y = r.y <= usize::MAX;
    let z = r.z <= usize::MAX;
    match shape_of(r.opcode) {
        None => false,
        Some(Shape::Bare) => no_x && no_y && no_z && no_flags && no_value && no_name,
        Some(Shape::One) => x && no_y && no_z && no_flags && no_value && no_name,
        Some(Shape::Two) => x && y && no_z && no_flags && no_value && no_name,
        Some(Shape::Three) => x && y && z && no_flags && no_value && no_name,
        Some(Shape::OneValue) => x && no_y && no_z && no_flags && no_name,
        Some(Shape::TwoValue) => x && y && no_z && no_flags && no_name,
        Some(Shape::Counter) => x && (r.some || no_x) && no_y && no_z && no_value,
        Some(Shape::OneName) => x && no_y && no_z && no_flags && no_value,
        Some(Shape::NameValue) => no_x && no_y && no_z && no_flags,
        Some(Shape::Value) => no_x && no_y && no_z && no_flags && no_name,
    }
}

/// The record of an instruction.
#[verifier::opaque]
pub open spec fn spec_record(ins: Instruction) -> RecordView {
    match ins {
        Instruction::LOADV { target, value } => RecordView {
            x: target as u64,
            value: value@,
            ..bare(0)
        },
        Instruction::ADD { target, a, b } => RecordView {
            x: target as u64,
            y: a as u64,
            z: b as u64,
            ..bare(1)
        },
        Instruction::SUB { target, a, b } => RecordView {
            x: target as u64,
            y: a as u64,
            z: b as u64,
            ..bare(2)
        },
        Instruction::MUL { target, a, b } => RecordView {
            x: target as u64,
            y: a as u64,
            z: b as u64,
            ..bare(3)
        },
        Instruction::DIV { target, a, b } => RecordView {
            x: target as u64,
            y: a as u64,
            z: b as u64,
            ..bare(4)
        },
        Instruction::IDIV { target, a, b } => RecordView {
            x: target as u64,
            y: a as u64,
            z: b as u64,
            ..bare(5)
        },
        Instruction::POW { target, a, b } => RecordView {
            x: target as u64,
            y: a as u64,
            z: b as u64,
            ..bare(6)
        },
        Instruction::MOD { target, a, b } => RecordView {
            x: target as u64,
            y: a as u64,
            z: b as u64,
            ..bare(7)
        },
        Instruction::ADDK { target, a_value, b } => RecordView {
            x: target as u64,
            value: a_value@,
            y: b as u64,
            ..bare(8)
        },
        Instruction::SUBK { target, a_value, b } => RecordView {
            x: target as u64,
            value: a_value@,
            y: b as u64,
            ..bare(9)
        },
        Instruction::MULK { target, a_value, b } => RecordView {
            x: target as u64,
            value: a_value@,
            y: b as u64,
            ..bare(10)
        },
        Instruction::DIVK { target, a_value, b } => RecordView {
            x: target as u64,
            value: a_value@,
            y: b as u64,
            ..bare(11)
        },
        Instruction::IDIVK { target, a_value, b } => RecordView {
            x: target as u64,
            value: a_value@,
            y: b as u64,
            ..bare(12)
        },
        Instruction::POWK { target, a_value, b } => RecordView {
            x: target as u64,
            value: a_value@,
            y: b as u64,
            ..bare(13)
        },
        Instruction::MODK { target, a_value, b } => RecordView {
            x: target as u64,
            value: a_value@,
            y: b as u64,
            ..bare(14)
        },
        Instruction::BXOR { target, a, b } => RecordView {
            x: target as u64,
            y: a as u64,
            z: b as u64,
            ..bare(15)
        },
        Instruction::BAND { target, a, b } => RecordView {
            x: target as u64,
            y: a as u64,
            z: b as u64,
            ..bare(16)
        },
        Instruction::BOR { target, a, b } => RecordView {
            x: target as u64,
            y: a as u64,
            z: b as u64,
            ..bare(17)
        },
        Instruction::BLSH { target, a, b } => RecordView {
            x: target as u64,
            y: a as u64,
            z: b as u64,
            ..bare(18)
        },
        Instruction::BRSH { target, a, b } => RecordView {
            x: target as u64,
            y: a as u64,
            z: b as u64,
            ..bare(19)
        },
        Instruction::BARSH { target, a, b } => RecordView {
            x: target as u64,
            y: a as u64,
            z: b as u64,
            ..bare(20)
        },
        Instruction::BNOT { target, operand } => RecordView {
            x: target as u64,
            y: operand as u64,
            ..bare(21)
        },
        Instruction::NEGATE { target, operand } => RecordView {
            x: target as u64,
            y: operand as u64,
            ..bare(22)
        },
        Instruction::AND { target, a, b } => RecordView {
            x: target as u64,
            y: a as u64,
            z: b as u64,
            ..bare(23)
        },
        Instruction::OR { target, a, b } => RecordView {
            x: target as u64,
            y: a as u64,
            z: b as u64,
            ..bare(24)
        },
        Instruction::ANDK { target, a_value, b } => RecordView {
            x: target as u64,
            value: a_value@,
            y: b as u64,
            ..bare(25)
        },
        Instruction::ORK { target, a_value, b } => RecordView {
            x: target as u64,
            value: a_value@,
            y: b as u64,
            ..bare(26)
        },
        Instruction::NULL_COALESCE { target, a, b } => RecordView {
            x: target as u64,
            y: a as u64,
            z: b as u64,
            ..bare(27)
        },
        Instruction::EQ { target, a, b } => RecordView {
            x: target as u64,
            y: a as u64,
            z: b as u64,
            ..bare(28)
        },
        Instruction::NEQ { target, a, b } => RecordView {
            x: target as u64,
            y: a as u64,
            z: b as u64,
            ..bare(29)
        },
        Instruction::LT { target, a, b } => RecordView {
            x: target as u64,
            y: a as u64,
            z: b as u64,
            ..bare(30)
        },
        Instruction::LTE { target, a, b } => RecordView {
            x: target as u64,
            y: a as u64,
            z: b as u64,
            ..bare(31)
        },
        Instruction::GT { target, a, b } => RecordView {
            x: target as u64,
            y: a as u64,
            z: b as u64,
            ..bare(32)
        },
        Instruction::GTE { target, a, b } => RecordView {
            x: target as u64,
            y: a as u64,
            z: b as u64,
            ..bare(33)
        },
        Instruction::NOT { target, operand } => RecordView {
            x: target as u64,
            y: operand as u64,
            ..bare(34)
        },
        Instruction::INC { target, name, returns_old } => RecordView {
            some: target.is_some(),
            x: (match target {
                Some(register) => register as u64,
                None => 0,
            }),
            name: name@,
            flag: returns_old,
            ..bare(35)
        },
        Instruction::DEC { target, name, returns_old } => RecordView {
            some: target.is_some(),
            x: (match target {
                Some(register) => register as u64,
                None => 0,
            }),
            name: name@,
            flag: returns_old,
            ..bare(36)
        },
        Instruction::INDEX { target, object, index } => RecordView {
            x: target as u64,
            y: object as u64,
            z: index as u64,
            ..bare(37)
        },
        Instruction::INDEXN { target, object, index } => RecordView {
            x: target as u64,
            y: object as u64,
            z: index as u64,
            ..bare(38)
        },
        Instruction::INDEXK { target, object, index } => RecordView {
            x: target as u64,
            y: object as u64,
            value: index@,
            ..bare(39)
        },
        Instruction::STORE_INDEX { source, object, index } => RecordView {
            x: source as u64,
            y: object as u64,
            z: index as u64,
            ..bare(40)
        },
        Instruction::STORE_INDEXN { source, object, index } => RecordView {
            x: source as u64,
            y: object as u64,
            z: index as u64,
            ..bare(41)
        },
        Instruction::STORE_INDEXK { source, object, index } => RecordView {
            x: source as u64,
            y: object as u64,
            value: index@,
            ..bare(42)
        },
        Instruction::DELETE_INDEX { object, index } => RecordView {
            x: object as u64,
            y: index as u64,
            ..bare(43)
        },
        Instruction::DELETE_INDEXN { object, index } => RecordView {
            x: object as u64,
            y: index as u64,
            ..bare(44)
        },
        Instruction::DELETE_INDEXK { object, index } => RecordView {
            x: object as u64,
            value: index@,
            ..bare(45)
        },
        Instruction::NEW_OBJECT(operand) => RecordView {
            x: operand as u64,
            ..bare(46)
        },
        Instruction::NEW_ARRAY(operand) => RecordView {
            x: operand as u64,
            ..bare(47)
        },
        Instruction::ARRAY_PUSH { target, source } => RecordView {
            x: target as u64,
            y: source as u64,
            ..bare(48)
        },
        Instruction::ARRAY_PUSHK { target, value } => RecordView {
            x: target as u64,
            value: value@,
            ..bare(49)
        },
        Instruction::LEN { target, source } => RecordView {
            x: target as u64,
            y: source as u64,
            ..bare(50)
        },
        Instruction::JMP(operand) => RecordView {
            x: operand as u64,
            ..bare(51)
        },
        Instruction::JZ { source, address } => RecordView {
            x: source as u64,
            y: address as u64,
            ..bare(52)
        },
        Instruction::JNZ { source, address } => RecordView {
            x: source as u64,
            y: address as u64,
            ..bare(53)
        },
        Instruction::JLT { a, b, address } => RecordView {
            x: a as u64,
            y: b as u64,
            z: address as u64,
            ..bare(54)
        },
        Instruction::JLTE { a, b, address } => RecordView {
            x: a as u64,
            y: b as u64,
            z: address as u64,
            ..bare(55)
        },
        Instruction::JGT { a, b, address } => RecordView {
            x: a as u64,
            y: b as u64,
            z: address as u64,
            ..bare(56)
        },
        Instruction::JGTE { a, b, address } => RecordView {
            x: a as u64,
            y: b as u64,
            z: address as u64,
            ..bare(57)
        },
        Instruction::JEQ { a, b, address } => RecordView {
            x: a as u64,
            y: b as u64,
            z: address as u64,
            ..bare(58)
        },
        Instruction::JNEQ { a, b, address } => RecordView {
            x: a as u64,
            y: b as u64,
            z: address as u64,
            ..bare(59)
        },
        Instruction::STORE { source, name } => RecordView {
            x: source as u64,
            name: name@,
            ..bare(60)
        },
        Instruction::STOREK { name, value } => RecordView {
            name: name@,
            value: value@,
            ..bare(61)
        },
        Instruction::LOAD { target, name } => RecordView {
            x: target as u64,
            name: name@,
            ..bare(62)
        },
        Instruction::CALL(operand) => RecordView {
            x: operand as u64,
            ..bare(63)
        },
        Instruction::RETURN => bare(64),
        Instruction::PRINT(operand) => RecordView {
            x: operand as u64,
            ..bare(65)
        },
        Instruction::PRINTK(operand) => RecordView {
            value: operand@,
            ..bare(66)
        },
        Instruction::HALT => bare(67),
    }
}

impl Record {
    /// The record with nothing but the number of an operation.
    fn bare(opcode: u64) -> (r: Record)
        ensures
            r@ == bare(opcode),
    {
        let r = Record {
            opcode,
            x: 0,
            y: 0,
            z: 0,
            flag: false,
            some: false,
            value: VmValue::Null,
            name: String::new(),
        };
        assert(r@.name =~= Seq::empty());
        r
    }

    /// The record of an instruction.
    pub fn of(ins: &Instruction) -> (r: Record)
        ensures
            r@ == spec_record(*ins),
    {
        reveal(spec_record);
        match ins {
            Instruction::LOADV { target, value } => {
                let mut r = Record::bare(0);
                r.x = *target as u64;
                r.value = value.clone();
                r
            },
            Instruction::ADD { target, a, b } => {
                let mut r = Record::bare(1);
                r.x = *target as u64;
                r.y = *a as u64;
                r.z = *b as u64;
                r
            },
            Instruction::SUB { target, a, b } => {
                let mut r = Record::bare(2);
                r.x = *target as u64;
                r.y = *a as u64;
                r.z = *b as u64;
                r
            },
            Instruction::MUL { target, a, b } => {
                let mut r = Record::bare(3);
                r.x = *target as u64;
                r.y = *a as u64;
                r.z = *b as u64;
                r
            },
            Instruction::DIV { target, a, b } => {
                let mut r = Record::bare(4);
                r.x = *target as u64;
                r.y = *a as u64;
                r.z = *b as u64;
                r
            },
            Instruction::IDIV { target, a, b } => {
                let mut r = Record::bare(5);
                r.x = *target as u64;
                r.y = *a as u64;
                r.z = *b as u64;
                r
            },
            Instruction::POW { target, a, b } => {
                let mut r = Record::bare(6);
                r.x = *target as u64;
                r.y = *a as u64;
                r.z = *b as u64;
                r
            },
            Instruction::MOD { target, a, b } => {
                let mut r = Record::bare(7);
                r.x = *target as u64;
                r.y = *a as u64;
                r.z = *b as u64;
                r
            },
            Instruction::ADDK { target, a_value, b } => {
                let mut r = Record::bare(8);
                r.x = *target as u64;
                r.value = a_value.clone();
                r.y = *b as u64;
                r
            },
            Instruction::SUBK { target, a_value, b } => {
                let mut r = Record::bare(9);
                r.x = *target as u64;
                r.value = a_value.clone();
                r.y = *b as u64;
                r
            },
            Instruction::MULK { target, a_value, b } => {
                let mut r = Record::bare(10);
                r.x = *target as u64;
                r.value = a_value.clone();
                r.y = *b as u64;
                r
            },
            Instruction::DIVK { target, a_value, b } => {
                let mut r = Record::bare(11);
                r.x = *target as u64;
                r.value = a_value.clone();
                r.y = *b as u64;
                r
            },
            Instruction::IDIVK { target, a_value, b } => {
                let mut r = Record::bare(12);
                r.x = *target as u64;
                r.value = a_value.clone();
                r.y = *b as u64;
                r
            },
            Instruction::POWK { target, a_value, b } => {
                let mut r = Record::bare(13);
                r.x = *target as u64;
                r.value = a_value.clone();
                r.y = *b as u64;
                r
            },
            Instruction::MODK { target, a_value, b } => {
                let mut r = Record::bare(14);
                r.x = *target as u64;
                r.value = a_value.clone();
                r.y = *b as u64;
                r
            },
            Instruction::BXOR { target, a, b } => {
                let mut r = Record::bare(15);
                r.x = *target as u64;
                r.y = *a as u64;
                r.z = *b as u64;
                r
            },
            Instruction::BAND { target, a, b } => {
                let mut r = Record::bare(16);
                r.x = *target as u64;
                r.y = *a as u64;
                r.z = *b as u64;
                r
            },
            Instruction::BOR { target, a, b } => {
                let mut r = Record::bare(17);
                r.x = *target as u64;
                r.y = *a as u64;
                r.z = *b as u64;
                r
            },
            Instruction::BLSH { target, a, b } => {
                let mut r = Record::bare(18);
                r.x = *target as u64;
                r.y = *a as u64;
                r.z = *b as u64;
                r
            },
            Instruction::BRSH { target, a, b } => {
                let mut r = Record::bare(19);
                r.x = *target as u64;
                r.y = *a as u64;
                r.z = *b as u64;
                r
            },
            Instruction::BARSH { target, a, b } => {
                let mut r = Record::bare(20);
                r.x = *target as u64;
                r.y = *a as u64;
                r.z = *b as u64;
                r
            },
            Instruction::BNOT { target, operand } => {
                let mut r = Record::bare(21);
                r.x = *target as u64;
                r.y = *operand as u64;
                r
            },
            Instruction::NEGATE { target, operand } => {
                let mut r = Record::bare(22);
                r.x = *target as u64;
                r.y = *operand as u64;
                r
            },
            Instruction::AND { target, a, b } => {
                let mut r = Record::bare(23);
                r.x = *target as u64;
                r.y = *a as u64;
                r.z = *b as u64;
                r
            },
            Instruction::OR { target, a, b } => {
                let mut r = Record::bare(24);
                r.x = *target as u64;
                r.y = *a as u64;
                r.z = *b as u64;
                r
            },
            Instruction::ANDK { target, a_value, b } => {
                let mut r = Record::bare(25);
                r.x = *target as u64;
                r.value = a_value.clone();
                r.y = *b as u64;
                r
            },
            Instruction::ORK { target, a_value, b } => {
                let mut r = Record::bare(26);
                r.x = *target as u64;
                r.value = a_value.clone();
                r.y = *b as u64;
                r
            },
            Instruction::NULL_COALESCE { target, a, b } => {
                let mut r = Record::bare(27);
                r.x = *target as u64;
                r.y = *a as u64;
                r.z = *b as u64;
                r
            },
            Instruction::EQ { target, a, b } => {
                let mut r = Record::bare(28);
                r.x = *target as u64;
                r.y = *a as u64;
                r.z = *b as u64;
                r
            },
            Instruction::NEQ { target, a, b } => {
                let mut r = Record::bare(29);
                r.x = *target as u64;
                r.y = *a as u64;
                r.z = *b as u64;
                r
            },
            Instruction::LT { target, a, b } => {
                let mut r = Record::bare(30);
                r.x = *target as u64;
                r.y = *a as u64;
                r.z = *b as u64;
                r
            },
            Instruction::LTE { target, a, b } => {
                let mut r = Record::bare(31);
                r.x = *target as u64;
                r.y = *a as u64;
                r.z = *b as u64;
                r
            },
            Instruction::GT { target, a, b } => {
                let mut r = Record::bare(32);
                r.x = *target as u64;
                r.y = *a as u64;
                r.z = *b as u64;
                r
            },
            Instruction::GTE { target, a, b } => {
                let mut r = Record::bare(33);
                r.x = *target as u64;
                r.y = *a as u64;
                r.z = *b as u64;
                r
            },
            Instruction::NOT { target, operand } => {
                let mut r = Record::bare(34);
                r.x = *target as u64;
                r.y = *operand as u64;
                r
            },
            Instruction::INC { target, name, returns_old } => {
                let mut r = Record::bare(35);
                match target {
                    Some(register) => {
                        r.some = true;
                        r.x = *register as u64;
                    },
                    None => {},
                }
                r.name = name.clone();
                r.flag = *returns_old;
                r
            },
            Instruction::DEC { target, name, returns_old } => {
                let mut r = Record::bare(36);
                match target {
                    Some(register) => {
                        r.some = true;
                        r.x = *register as u64;
                    },
                    None => {},
                }
                r.name = name.clone();
                r.flag = *returns_old;
                r
            },
            Instruction::INDEX { target, object, index } => {
                let mut r = Record::bare(37);
                r.x = *target as u64;
                r.y = *object as u64;
                r.z = *index as u64;
                r
            },
            Instruction::INDEXN { target, object, index } => {
                let mut r = Record::bare(38);
                r.x = *target as u64;
                r.y = *object as u64;
                r.z = *index as u64;
                r
            },
            Instruction::INDEXK { target, object, index } => {
                let mut r = Record::bare(39);
                r.x = *target as u64;
                r.y = *object as u64;
                r.value = index.clone();
                r
            },
            Instruction::STORE_INDEX { source, object, index } => {
                let mut r = Record::bare(40);
                r.x = *source as u64;
                r.y = *object as u64;
                r.z = *index as u64;
                r
            },
            Instruction::STORE_INDEXN { source, object, index } => {
                let mut r = Record::bare(41);
                r.x = *source as u64;
                r.y = *object as u64;
                r.z = *index as u64;
                r
            },
            Instruction::STORE_INDEXK { source, object, index } => {
                let mut r = Record::bare(42);
                r.x = *source as u64;
                r.y = *object as u64;
                r.value = index.clone();
                r
            },
            Instruction::DELETE_INDEX { object, index } => {
                let mut r = Record::bare(43);
                r.x = *object as u64;
                r.y = *index as u64;
                r
            },
            Instruction::DELETE_INDEXN { object, index } => {
                let mut r = Record::bare(44);
                r.x = *object as u64;
                r.y = *index as u64;
                r
            },
            Instruction::DELETE_INDEXK { object, index } => {
                let mut r = Record::bare(45);
                r.x = *object as u64;
                r.value = index.clone();
                r
            },
            Instruction::NEW_OBJECT(operand) => {
                let mut r = Record::bare(46);
                r.x = *operand as u64;
                r
            },
            Instruction::NEW_ARRAY(operand) => {
                let mut r = Record::bare(47);
                r.x = *operand as u64;
                r
            },
            Instruction::ARRAY_PUSH { target, source } => {
                let mut r = Record::bare(48);
                r.x = *target as u64;
                r.y = *source as u64;
                r
            },
            Instruction::ARRAY_PUSHK { target, value } => {
                let mut r = Record::bare(49);
                r.x = *target as u64;
                r.value = value.clone();
                r
            },
            Instruction::LEN { target, source } => {
                let mut r = Record::bare(50);
                r.x = *target as u64;
                r.y = *source as u64;
                r
            },
            Instruction::JMP(operand) => {
                let mut r = Record::bare(51);
                r.x = *operand as u64;
                r
            },
            Instruction::JZ { source, address } => {
                let mut r = Record::bare(52);
                r.x = *source as u64;
                r.y = *address as u64;
                r
            },
            Instruction::JNZ { source, address } => {
                let mut r = Record::bare(53);
                r.x = *source as u64;
                r.y = *address as u64;
                r
            },
            Instruction::JLT { a, b, address } => {
                let mut r = Record::bare(54);
                r.x = *a as u64;
                r.y = *b as u64;
                r.z = *address as u64;
                r
            },
            Instruction::JLTE { a, b, address } => {
                let mut r = Record::bare(55);
                r.x = *a as u64;
                r.y = *b as u64;
                r.z = *address as u64;
                r
            },
            Instruction::JGT { a, b, address } => {
                let mut r = Record::bare(56);
                r.x = *a as u64;
                r.y = *b as u64;
                r.z = *address as u64;
                r
            },
            Instruction::JGTE { a, b, address } => {
                let mut r = Record::bare(57);
                r.x = *a as u64;
                r.y = *b as u64;
                r.z = *address as u64;
                r
            },
            Instruction::JEQ { a, b, address } => {
                let mut r = Record::bare(58);
                r.x = *a as u64;
                r.y = *b as u64;
                r.z = *address as u64;
                r
            },
            Instruction::JNEQ { a, b, address } => {
                let mut r = Record::bare(59);
                r.x = *a as u64;
                r.y = *b as u64;
                r.z = *address as u64;
                r
            },
            Instruction::STORE { source, name } => {
                let mut r = Record::bare(60);
                r.x = *source as u64;
                r.name = name.clone();
                r
            },
            Instruction::STOREK { name, value } => {
                let mut r = Record::bare(61);
                r.name = name.clone();
                r.value = value.clone();
                r
            },
            Instruction::LOAD { target, name } => {
                let mut r = Record::bare(62);
                r.x = *target as u64;
                r.name = name.clone();
                r
            },
            Instruction::CALL(operand) => {
                let mut r = Record::bare(63);
                r.x = *operand as u64;
                r
            },
            Instruction::RETURN => Record::bare(64),
            Instruction::PRINT(operand) => {
                let mut r = Record::bare(65);
                r.x = *operand as u64;
                r
            },
            Instruction::PRINTK(operand) => {
                let mut r = Record::bare(66);
                r.value = operand.clone();
                r
            },
            Instruction::HALT => Record::bare(67),
        }
    }

    /// The instruction of a record; none where the record is that of no instruction.
    pub fn instruction(self) -> (r: Option<Instruction>)
        ensures
            match r {
                Some(ins) => spec_record(ins) == self@ && well_shaped(self@),
                None => !well_shaped(self@),
            },
    {
        if !self.is_well_shaped() {
            return None;
        }
        reveal(well_shaped);
        reveal(spec_record);
        let Record { opcode, x, y, z, flag, some, value, name } = self;
        assert(name@.len() == 0 ==> name@ =~= Seq::<char>::empty());
        if opcode == 0 {
            Some(Instruction::LOADV { target: x as usize, value })
        } else if opcode == 1 {
            Some(Instruction::ADD { target: x as usize, a: y as usize, b: z as usize })
        } else if opcode == 2 {
            Some(Instruction::SUB { target: x as usize, a: y as usize, b: z as usize })
        } else if opcode == 3 {
            Some(Instruction::MUL { target: x as usize, a: y as usize, b: z as usize })
        } else if opcode == 4 {
            Some(Instruction::DIV { target: x as usize, a: y as usize, b: z as usize })
        } else if opcode == 5 {
            Some(Instruction::IDIV { target: x as usize, a: y as usize, b: z as usize })
        } else if opcode == 6 {
            Some(Instruction::POW { target: x as usize, a: y as usize, b: z as usize })
        } else if opcode == 7 {
            Some(Instruction::MOD { target: x as usize, a: y as usize, b: z as usize })
        } else if opcode == 8 {
            Some(Instruction::ADDK { target: x as usize, a_value: value, b: y as usize })
        } else if opcode == 9 {
            Some(Instruction::SUBK { target: x as usize, a_value: value, b: y as usize })
        } else if opcode == 10 {
            Some(Instruction::MULK { target: x as usize, a_value: value, b: y as usize })
        } else if opcode == 11 {
            Some(Instruction::DIVK { target: x as usize, a_value: value, b: y as usize })
        } else if opcode == 12 {
            Some(Instruction::IDIVK { target: x as usize, a_value: value, b: y as usize })
        } else if opcode == 13 {
            Some(Instruction::POWK { target: x as usize, a_value: value, b: y as usize })
        } else if opcode == 14 {
            Some(Instruction::MODK { target: x as usize, a_value: value, b: y as usize })
        } else if opcode == 15 {
            Some(Instruction::BXOR { target: x as usize, a: y as usize, b: z as usize })
        } else if opcode == 16 {
            Some(Instruction::BAND { target: x as usize, a: y as usize, b: z as usize })
        } else if opcode == 17 {
            Some(Instruction::BOR { target: x as usize, a: y as usize, b: z as usize })
        } else if opcode == 18 {
            Some(Instruction::BLSH { target: x as usize, a: y as usize, b: z as usize })
        } else if opcode == 19 {
            Some(Instruction::BRSH { target: x as usize, a: y as usize, b: z as usize })
        } else if opcode == 20 {
            Some(Instruction::BARSH { target: x as usize, a: y as usize, b: z as usize })
        } else if opcode == 21 {
            Some(Instruction::BNOT { target: x as usize, operand: y as usize })
        } else if opcode == 22 {
            Some(Instruction::NEGATE { target: x as usize, operand: y as usize })
        } else if opcode == 23 {
            Some(Instruction::AND { target: x as usize, a: y as usize, b: z as usize })
        } else if opcode == 24 {
            Some(Instruction::OR { target: x as usize, a: y as usize, b: z as usize })
        } else if opcode == 25 {
            Some(Instruction::ANDK { target: x as usize, a_value: value, b: y as usize })
        } else if opcode == 26 {
            Some(Instruction::ORK { target: x as usize, a_value: value, b: y as usize })
        } else if opcode == 27 {
            Some(Instruction::NULL_COALESCE { target: x as usize, a: y as usize, b: z as usize })
        } else if opcode == 28 {
            Some(Instruction::EQ { target: x as usize, a: y as usize, b: z as usize })
        } else if opcode == 29 {
            Some(Instruction::NEQ { target: x as usize, a: y as usize, b: z as usize })
        } else if opcode == 30 {
            Some(Instruction::LT { target: x as usize, a: y as usize, b: z as usize })
        } else if opcode == 31 {
            Some(Instruction::LTE { target: x as usize, a: y as usize, b: z as usize })
        } else if opcode == 32 {
            Some(Instruction::GT { target: x as usize, a: y as usize, b: z as usize })
        } else if opcode == 33 {
            Some(Instruction::GTE { target: x as usize, a: y as usize, b: z as usize })
        } else if opcode == 34 {
            Some(Instruction::NOT { target: x as usize, operand: y as usize })
        } else if opcode == 35 {
            let target = if some {
                Some(x as usize)
            } else {
                None
            };
            Some(Instruction::INC { target, name, returns_old: flag })
        } else if opcode == 36 {
            let target = if some {
                Some(x as usize)
            } else {
                None
            };
            Some(Instruction::DEC { target, name, returns_old: flag })
        } else if opcode == 37 {
            Some(Instruction::INDEX { target: x as usize, object: y as usize, index: z as usize })
        } else if opcode == 38 {
            Some(Instruction::INDEXN { target: x as usize, object: y as usize, index: z as usize })
        } else if opcode == 39 {
            Some(Instruction::INDEXK { target: x as usize, object: y as usize, index: value })
        } else if opcode == 40 {
            Some(Instruction::STORE_INDEX { source: x as usize, object: y as usize, index: z as usize })
        } else if opcode == 41 {
            Some(Instruction::STORE_INDEXN { source: x as usize, object: y as usize, index: z as usize })
        } else if opcode == 42 {
            Some(Instruction::STORE_INDEXK { source: x as usize, object: y as usize, index: value })
        } else if opcode == 43 {
            Some(Instruction::DELETE_INDEX { object: x as usize, index: y as usize })
        } else if opcode == 44 {
            Some(Instruction::DELETE_INDEXN { object: x as usize, index: y as usize })
        } else if opcode == 45 {
            Some(Instruction::DELETE_INDEXK { object: x as usize, index: value })
        } else if opcode == 46 {
            Some(Instruction::NEW_OBJECT(x as usize))
        } else if opcode == 47 {
            Some(Instruction::NEW_ARRAY(x as usize))
        } else if opcode == 48 {
            Some(Instruction::ARRAY_PUSH { target: x as usize, source: y as usize })
        } else if opcode == 49 {
            Some(Instruction::ARRAY_PUSHK { target: x as usize, value })
        } else if opcode == 50 {
            Some(Instruction::LEN { target: x as usize, source: y as usize })
        } else if opcode == 51 {
            Some(Instruction::JMP(x as usize))
        } else if opcode == 52 {
            Some(Instruction::JZ { source: x as usize, address: y as usize })
        } else if opcode == 53 {
            Some(Instruction::JNZ { source: x as usize, address: y as usize })
        } else if opcode == 54 {
            Some(Instruction::JLT { a: x as usize, b: y as usize, address: z as usize })
        } else if opcode == 55 {
            Some(Instruction::JLTE { a: x as usize, b: y as usize, address: z as usize })
        } else if opcode == 56 {
            Some(Instruction::JGT { a: x as usize, b: y as usize, address: z as usize })
        } else if opcode == 57 {
            Some(Instruction::JGTE { a: x as usize, b: y as usize, address: z as usize })
        } else if opcode == 58 {
            Some(Instruction::JEQ { a: x as usize, b: y as usize, address: z as usize })
        } else if opcode == 59 {
            Some(Instruction::JNEQ { a: x as usize, b: y as usize, address: z as usize })
        } else if opcode == 60 {
            Some(Instruction::STORE { source: x as usize, name })
        } else if opcode == 61 {
            Some(Instruction::STOREK { name, value })
        } else if opcode == 62 {
            Some(Instruction::LOAD { target: x as usize, name })
        } else if opcode == 63 {
            Some(Instruction::CALL(x as usize))
        } else if opcode == 64 {
            Some(Instruction::RETURN)
        } else if opcode == 65 {
            Some(Instruction::PRINT(x as usize))
        } else if opcode == 66 {
            Some(Instruction::PRINTK(value))
        } else if opcode == 67 {
            Some(Instruction::HALT)
        } else {
            None
        }
    }

    /// The shape of the record's operation.
    fn shape(&self) -> (r: Option<Shape>)
        ensures
            r == shape_of(self.opcode),
    {
        if self.opcode == 0 || self.opcode == 45 || self.opcode == 49 {
            Some(Shape::OneValue)
        } else if (1 <= self.opcode && self.opcode <= 7) ||
            (15 <= self.opcode && self.opcode <= 20) ||
            (23 <= self.opcode && self.opcode <= 24) ||
            (27 <= self.opcode && self.opcode <= 33) ||
            (37 <= self.opcode && self.opcode <= 38) ||
            (40 <= self.opcode && self.opcode <= 41) || (54 <= self.opcode && self.opcode <= 59) {
            Some(Shape::Three)
        } else if (8 <= self.opcode && self.opcode <= 14) ||
            (25 <= self.opcode && self.opcode <= 26) || self.opcode == 39 || self.opcode == 42 {
            Some(Shape::TwoValue)
        } else if (21 <= self.opcode && self.opcode <= 22) || self.opcode == 34 ||
            (43 <= self.opcode && self.opcode <= 44) || self.opcode == 48 ||
            self.opcode == 50 || (52 <= self.opcode && self.opcode <= 53) {
            Some(Shape::Two)
        } else if (35 <= self.opcode && self.opcode <= 36) {
            Some(Shape::Counter)
        } else if (46 <= self.opcode && self.opcode <= 47) || self.opcode == 51 ||
            self.opcode == 63 || self.opcode == 65 {
            Some(Shape::One)
        } else if self.opcode == 60 || self.opcode == 62 {
            Some(Shape::OneName)
        } else if self.opcode == 61 {
            Some(Shape::NameValue)
        } else if self.opcode == 64 || self.opcode == 67 {
            Some(Shape::Bare)
        } else if self.opcode == 66 {
            Some(Shape::Value)
        } else {
            None
        }
    }

    /// Whether the record is that of an instruction.
    pub fn is_well_shaped(&self) -> (r: bool)
        ensures
            r == well_shaped(self@),
    {
        reveal(well_shaped);
        let no_x = self.x == 0;
        let no_y = self.y == 0;
        let no_z = self.z == 0;
        let no_flags = !self.flag && !self.some;
        let no_value = match self.value {
            VmValue::Null => true,
            _ => false,
        };
        let no_name = self.name.as_str().unicode_len() == 0;
        let x = self.x <= usize::MAX as u64;
        let y = self.y <= usize::MAX as u64;
        let z = self.z <= usize::MAX as u64;
        match self.shape() {
            None => false,
            Some(Shape::Bare) => no_x && no_y && no_z && no_flags && no_value && no_name,
            Some(Shape::One) => x && no_y && no_z && no_flags && no_value && no_name,
            Some(Shape::Two) => x && y && no_z && no_flags && no_value && no_name,
            Some(Shape::Three) => x && y && z && no_flags && no_value && no_name,
            Some(Shape::OneValue) => x && no_y && no_z && no_flags && no_name,
            Some(Shape::TwoValue) => x && y && no_z && no_flags && no_name,
            Some(Shape::Counter) => x && (self.some || no_x) && no_y && no_z && no_value,
            Some(Shape::OneName) => x && no_y && no_z && no_flags && no_value,
            Some(Shape::NameValue) => no_x && no_y && no_z && no_flags,
            Some(Shape::Value) => no_x && no_y && no_z && no_flags && no_name,
        }
    }
}

/// The record of every instruction is well shaped.
pub proof fn lemma_record_well_shaped(ins: Instruction)
    ensures
        well_shaped(spec_record(ins)),
{
    reveal(well_shaped);
    reveal(spec_record);
}

/// The four numbers of a record: that of its operation and its three number slots.
pub open spec fn enc_numbers(r: RecordView) -> Seq<u8> {
    varint(r.opcode) + varint(r.x) + varint(r.y) + varint(r.z)
}

/// The two flags of a record.
pub open spec fn enc_flags(r: RecordView) -> Seq<u8> {
    enc_bool(r.flag) + enc_bool(r.some)
}

/// A record: its four numbers, its two flags, the value and the name.
pub open spec fn enc_record(r: RecordView) -> Seq<u8> {
    enc_numbers(r) + enc_flags(r) + enc_value(r.value) + enc_text(r.name)
}

/// The four numbers at the head of a byte sequence, and what follows them.
pub open spec fn parse_numbers(s: Seq<u8>) -> Option<((u64, u64, u64, u64), Seq<u8>)> {
    match parse_varint(s) {
        None => None,
        Some((opcode, s1)) => match parse_varint(s1) {
            None => None,
            Some((x, s2)) => match parse_varint(s2) {
                None => None,
                Some((y, s3)) => match parse_varint(s3) {
                    None => None,
                    Some((z, s4)) => Some(((opcode, x, y, z), s4)),
                },
            },
        },
    }
}

/// The two flags at the head of a byte sequence, and what follows them.
pub open spec fn parse_flags(s: Seq<u8>) -> Option<((bool, bool), Seq<u8>)> {
    match parse_bool(s) {
        None => None,
        Some((flag, s1)) => match parse_bool(s1) {
            None => None,
            Some((some, s2)) => Some(((flag, some), s2)),
        },
    }
}

/// The slots of the record at the head of a byte sequence, whatever they hold, and what
/// follows them.
pub open spec fn parse_slots(s: Seq<u8>) -> Option<(RecordView, Seq<u8>)> {
    match parse_numbers(s) {
        None => None,
        Some((numbers, s1)) => match parse_flags(s1) {
            None => None,
            Some((flags, s2)) => match parse_value(s2) {
                None => None,
                Some((value, s3)) => match parse_text(s3) {
                    None => None,
                    Some((name, s4)) => Some(
                        (
                            RecordView {
                                opcode: numbers.0,
                                x: numbers.1,
                                y: numbers.2,
                                z: numbers.3,
                                flag: flags.0,
                                some: flags.1,
                                value,
                                name,
                            },
                            s4,
                        ),
                    ),
                },
            },
        },
    }
}

/// The record of an instruction at the head of a byte sequence, and what follows it.
pub open spec fn parse_record(s: Seq<u8>) -> Option<(RecordView, Seq<u8>)> {
    match parse_slots(s) {
        Some((r, rest)) => if well_shaped(r) {
            Some((r, rest))
        } else {
            None
        },
        None => None,
    }
}

/// Whether a record can be written: its texts are not too long for their lengths to be
/// written.
pub open spec fn record_fits(r: RecordView) -> bool {
    value_fits(r.value) && encode_utf8(r.name).len() <= u64::MAX
}

/// The four numbers of a record are read back, whatever follows them.
pub proof fn lemma_numbers_round_trip(r: RecordView, rest: Seq<u8>)
    ensures
        parse_numbers(enc_numbers(r) + rest) == Some(((r.opcode, r.x, r.y, r.z), rest)),
{
    let t3 = varint(r.z) + rest;
    let t2 = varint(r.y) + t3;
    let t1 = varint(r.x) + t2;
    assert(enc_numbers(r) + rest =~= varint(r.opcode) + t1);
    lemma_varint_round_trip(r.opcode, t1);
    lemma_varint_round_trip(r.x, t2);
    lemma_varint_round_trip(r.y, t3);
    lemma_varint_round_trip(r.z, rest);
}

/// The two flags of a record are read back, whatever follows them.
pub proof fn lemma_flags_round_trip(r: RecordView, rest: Seq<u8>)
    ensures
        parse_flags(enc_flags(r) + rest) == Some(((r.flag, r.some), rest)),
{
    let t1 = enc_bool(r.some) + rest;
    assert(enc_flags(r) + rest =~= enc_bool(r.flag) + t1);
    lemma_varint_round_trip(
        if r.flag {
            1
        } else {
            0
        },
        t1,
    );
    lemma_varint_round_trip(
        if r.some {
            1
        } else {
            0
        },
        rest,
    );
}

/// A well-shaped record is read back, whatever follows it.
pub proof fn lemma_record_round_trip(r: RecordView, rest: Seq<u8>)
    requires
        well_shaped(r),
        record_fits(r),
    ensures
        parse_record(enc_record(r) + rest) == Some((r, rest)),
{
    let t3 = enc_text(r.name) + rest;
    let t2 = enc_value(r.value) + t3;
    let t1 = enc_flags(r) + t2;
    assert(enc_record(r) + rest =~= enc_numbers(r) + t1);
    lemma_numbers_round_trip(r, t1);
    lemma_flags_round_trip(r, t2);
    lemma_value_round_trip(r.value, t3);
    lemma_text_round_trip(r.name, rest);
}

/// Appends the record of an instruction.
pub fn put_instruction(out: &mut Vec<u8>, ins: &Instruction)
    ensures
        final(out)@ == old(out)@ + enc_record(spec_record(*ins)),
        well_shaped(spec_record(*ins)),
        record_fits(spec_record(*ins)),
{
    let r = Record::of(ins);
    proof {
        lemma_record_well_shaped(*ins);
    }
    put_u64(out, r.opcode);
    put_u64(out, r.x);
    put_u64(out, r.y);
    put_u64(out, r.z);
    put_bool(out, r.flag);
    put_bool(out, r.some);
    put_value(out, &r.value);
    put_text(out, r.name.as_str());
    assert(out@ =~= old(out)@ + (varint(r.opcode) + varint(r.x) + varint(r.y) + varint(r.z) + (
        enc_bool(r.flag) + enc_bool(r.some)) + enc_value(r.value@) + enc_text(r.name@)));
}

/// Reads the instruction that stands at `at`.
pub fn take_instruction(bytes: &[u8], at: usize) -> (r: Option<(Instruction, usize)>)
    requires
        at <= bytes@.len(),
    ensures
        match r {
            Some((ins, next)) => at <= next <= bytes@.len() && parse_record(
                bytes@.skip(at as int),
            ) == Some((spec_record(ins), bytes@.skip(next as int))),
            None => parse_record(bytes@.skip(at as int)).is_none(),
        },
{
    let (opcode, at_x) = match take_u64(bytes, at) {
        Some(pair) => pair,
        None => {
            return None;
        },
    };
    let (x, at_y) = match take_u64(bytes, at_x) {
        Some(pair) => pair,
        None => {
            return None;
        },
    };
    let (y, at_z) = match take_u64(bytes, at_y) {
        Some(pair) => pair,
        None => {
            return None;
        },
    };
    let (z, at_flag) = match take_u64(bytes, at_z) {
        Some(pair) => pair,
        None => {
            return None;
        },
    };
    let (flag, at_some) = match take_bool(bytes, at_flag) {
        Some(pair) => pair,
        None => {
            return None;
        },
    };
    let (some, at_value) = match take_bool(bytes, at_some) {
        Some(pair) => pair,
        None => {
            return None;
        },
    };
    let (value, at_name) = match take_value(bytes, at_value) {
        Some(pair) => pair,
        None => {
            return None;
        },
    };
    let (name, end) = match take_text(bytes, at_name) {
        Some(pair) => pair,
        None => {
            return None;
        },
    };
    let record = Record { opcode, x, y, z, flag, some, value, name };
    match record.instruction() {
        Some(ins) => Some((ins, end)),
        None => None,
    }
}

} // verus!
