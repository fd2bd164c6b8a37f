//! The instruction set.

use crate::value::VmValue;
use vstd::prelude::*;
use vstd::string::*;

verus! {

/// One operation of the machine. The operands named `target`, `source`, `object`, `operand`,
/// `a` and `b` are register numbers unless said otherwise.
#[derive(Debug)]
#[allow(inconsistent_fields)]
pub enum Instruction {
    /// Load an immediate value into a register.
    LOADV { target: usize, value: VmValue },
    /// `target = a + b`
    ADD { target: usize, a: usize, b: usize },
    /// `target = a - b`
    SUB { target: usize, a: usize, b: usize },
    /// `target = a * b`
    MUL { target: usize, a: usize, b: usize },
    /// `target = a / b`
    DIV { target: usize, a: usize, b: usize },
    /// `target = floor(a / b)`
    IDIV { target: usize, a: usize, b: usize },
    /// `target = a` raised to `b`
    POW { target: usize, a: usize, b: usize },
    /// `target = a % b`
    MOD { target: usize, a: usize, b: usize },
    /// `target = a_value + b`, the left operand an immediate
    ADDK { target: usize, a_value: VmValue, b: usize },
    /// `target = a_value - b`
    SUBK { target: usize, a_value: VmValue, b: usize },
    /// `target = a_value * b`
    MULK { target: usize, a_value: VmValue, b: usize },
    /// `target = a_value / b`
    DIVK { target: usize, a_value: VmValue, b: usize },
    /// `target = floor(a_value / b)`
    IDIVK { target: usize, a_value: VmValue, b: usize },
    /// `target = a_value` raised to `b`
    POWK { target: usize, a_value: VmValue, b: usize },
    /// `target = a_value % b`
    MODK { target: usize, a_value: VmValue, b: usize },
    /// `target = a ^ b` on the bits of two integers
    BXOR { target: usize, a: usize, b: usize },
    /// `target = a & b` on the bits of two integers
    BAND { target: usize, a: usize, b: usize },
    /// `target = a | b` on the bits of two integers
    BOR { target: usize, a: usize, b: usize },
    /// `target = a << b`
    BLSH { target: usize, a: usize, b: usize },
    /// `target = a >> b`, filling with zeros
    BRSH { target: usize, a: usize, b: usize },
    /// `target = a >> b`, filling with the sign
    BARSH { target: usize, a: usize, b: usize },
    /// `target = !operand` on the bits of an integer
    BNOT { target: usize, operand: usize },
    /// `target = -operand`
    NEGATE { target: usize, operand: usize },
    /// `target = a && b`, on truthiness
    AND { target: usize, a: usize, b: usize },
    /// `target = a || b`, on truthiness
    OR { target: usize, a: usize, b: usize },
    /// `target = a_value && b`
    ANDK { target: usize, a_value: VmValue, b: usize },
    /// `target = a_value || b`
    ORK { target: usize, a_value: VmValue, b: usize },
    /// `target = b` where `a` is `Null`, else `a`
    NULL_COALESCE { target: usize, a: usize, b: usize },
    /// `target = a == b`
    EQ { target: usize, a: usize, b: usize },
    /// `target = a != b`
    NEQ { target: usize, a: usize, b: usize },
    /// `target = a < b`
    LT { target: usize, a: usize, b: usize },
    /// `target = a <= b`
    LTE { target: usize, a: usize, b: usize },
    /// `target = a > b`
    GT { target: usize, a: usize, b: usize },
    /// `target = a >= b`
    GTE { target: usize, a: usize, b: usize },
    /// `target = !operand`, on truthiness
    NOT { target: usize, operand: usize },
    /// Add one to the variable `name`; where there is a target, it gets the old or the new value.
    INC { target: Option<usize>, name: String, returns_old: bool },
    /// Take one from the variable `name`; where there is a target, it gets the old or the new value.
    DEC { target: Option<usize>, name: String, returns_old: bool },
    /// `target = object[index]`, the index in a register
    INDEX { target: usize, object: usize, index: usize },
    /// `target = object[index]`, the index a constant position
    INDEXN { target: usize, object: usize, index: usize },
    /// `target = object[index]`, the index an immediate value
    INDEXK { target: usize, object: usize, index: VmValue },
    /// `object[index] = source`, the index in a register
    STORE_INDEX { source: usize, object: usize, index: usize },
    /// `object[index] = source`, the index a constant position
    STORE_INDEXN { source: usize, object: usize, index: usize },
    /// `object[index] = source`, the index an immediate value
    STORE_INDEXK { source: usize, object: usize, index: VmValue },
    /// `object[index] = Null`, the index in a register
    DELETE_INDEX { object: usize, index: usize },
    /// `object[index] = Null`, the index a constant position
    DELETE_INDEXN { object: usize, index: usize },
    /// `object[index] = Null`, the index an immediate value
    DELETE_INDEXK { object: usize, index: VmValue },
    /// Put a new, empty object into the register.
    NEW_OBJECT(usize),
    /// Put a new, empty array into the register.
    NEW_ARRAY(usize),
    /// Append the value of `source` to the array in `target`.
    ARRAY_PUSH { target: usize, source: usize },
    /// Append an immediate value to the array in `target`.
    ARRAY_PUSHK { target: usize, value: VmValue },
    /// `target` = the length of the array or string in `source`
    LEN { target: usize, source: usize },
    /// Go on at the address.
    JMP(usize),
    /// Go on at `address` if `source` is not truthy.
    JZ { source: usize, address: usize },
    /// Go on at `address` if `source` is truthy.
    JNZ { source: usize, address: usize },
    /// Go on at `address` if `a < b`.
    JLT { a: usize, b: usize, address: usize },
    /// Go on at `address` if `a <= b`.
    JLTE { a: usize, b: usize, address: usize },
    /// Go on at `address` if `a > b`.
    JGT { a: usize, b: usize, address: usize },
    /// Go on at `address` if `a >= b`.
    JGTE { a: usize, b: usize, address: usize },
    /// Go on at `address` if `a == b`.
    JEQ { a: usize, b: usize, address: usize },
    /// Go on at `address` if `a != b`.
    JNEQ { a: usize, b: usize, address: usize },
    /// Bind the variable `name` to the value of the register.
    STORE { source: usize, name: String },
    /// Bind the variable `name` to an immediate value.
    STOREK { name: String, value: VmValue },
    /// Put the value of the variable `name` into the register.
    LOAD { target: usize, name: String },
    /// Call the subroutine at the address.
    CALL(usize),
    /// Return from a subroutine.
    RETURN,
    /// Write out the value of the register.
    PRINT(usize),
    /// Write out an immediate value.
    PRINTK(VmValue),
    /// Stop.
    HALT,
}

impl Instruction {
    /// The name of the operation, as faults and listings quote it.
    pub open spec fn opcode_name(self) -> Seq<char> {
        match self {
            Instruction::LOADV { .. } => "LOADV"@,
            Instruction::ADD { .. } => "ADD"@,
            Instruction::SUB { .. } => "SUB"@,
            Instruction::MUL { .. } => "MUL"@,
            Instruction::DIV { .. } => "DIV"@,
            Instruction::IDIV { .. } => "IDIV"@,
            Instruction::POW { .. } => "POW"@,
            Instruction::MOD { .. } => "MOD"@,
            Instruction::ADDK { .. } => "ADDK"@,
            Instruction::SUBK { .. } => "SUBK"@,
            Instruction::MULK { .. } => "MULK"@,
            Instruction::DIVK { .. } => "DIVK"@,
            Instruction::IDIVK { .. } => "IDIVK"@,
            Instruction::POWK { .. } => "POWK"@,
            Instruction::MODK { .. } => "MODK"@,
            Instruction::BXOR { .. } => "BXOR"@,
            Instruction::BAND { .. } => "BAND"@,
            Instruction::BOR { .. } => "BOR"@,
            Instruction::BLSH { .. } => "BLSH"@,
            Instruction::BRSH { .. } => "BRSH"@,
            Instruction::BARSH { .. } => "BARSH"@,
            Instruction::BNOT { .. } => "BNOT"@,
            Instruction::NEGATE { .. } => "NEGATE"@,
            Instruction::AND { .. } => "AND"@,
            Instruction::OR { .. } => "OR"@,
            Instruction::ANDK { .. } => "ANDK"@,
            Instruction::ORK { .. } => "ORK"@,
            Instruction::NULL_COALESCE { .. } => "NULL_COALESCE"@,
            Instruction::EQ { .. } => "EQ"@,
            Instruction::NEQ { .. } => "NEQ"@,
            Instruction::LT { .. } => "LT"@,
            Instruction::LTE { .. } => "LTE"@,
            Instruction::GT { .. } => "GT"@,
            Instruction::GTE { .. } => "GTE"@,
            Instruction::NOT { .. } => "NOT"@,
            Instruction::INC { .. } => "INC"@,
            Instruction::DEC { .. } => "DEC"@,
            Instruction::INDEX { .. } => "INDEX"@,
            Instruction::INDEXN { .. } => "INDEXN"@,
            Instruction::INDEXK { .. } => "INDEXK"@,
            Instruction::STORE_INDEX { .. } => "STORE_INDEX"@,
            Instruction::STORE_INDEXN { .. } => "STORE_INDEXN"@,
            Instruction::STORE_INDEXK { .. } => "STORE_INDEXK"@,
            Instruction::DELETE_INDEX { .. } => "DELETE_INDEX"@,
            Instruction::DELETE_INDEXN { .. } => "DELETE_INDEXN"@,
            Instruction::DELETE_INDEXK { .. } => "DELETE_INDEXK"@,
            Instruction::NEW_OBJECT(_) => "NEW_OBJECT"@,
            Instruction::NEW_ARRAY(_) => "NEW_ARRAY"@,
            Instruction::ARRAY_PUSH { .. } => "ARRAY_PUSH"@,
            Instruction::ARRAY_PUSHK { .. } => "ARRAY_PUSHK"@,
            Instruction::LEN { .. } => "LEN"@,
            Instruction::JMP(_) => "JMP"@,
            Instruction::JZ { .. } => "JZ"@,
            Instruction::JNZ { .. } => "JNZ"@,
            Instruction::JLT { .. } => "JLT"@,
            Instruction::JLTE { .. } => "JLTE"@,
            Instruction::JGT { .. } => "JGT"@,
            Instruction::JGTE { .. } => "JGTE"@,
            Instruction::JEQ { .. } => "JEQ"@,
            Instruction::JNEQ { .. } => "JNEQ"@,
            Instruction::STORE { .. } => "STORE"@,
            Instruction::STOREK { .. } => "STOREK"@,
            Instruction::LOAD { .. } => "LOAD"@,
            Instruction::CALL(_) => "CALL"@,
            Instruction::RETURN => "RETURN"@,
            Instruction::PRINT(_) => "PRINT"@,
            Instruction::PRINTK(_) => "PRINTK"@,
            Instruction::HALT => "HALT"@,
        }
    }

    /// The name of the operation.
    pub fn name(&self) -> (r: String)
        ensures
            r@ == self.opcode_name(),
    {
        match self {
            Instruction::LOADV { .. } => String::from_str("LOADV"),
            Instruction::ADD { .. } => String::from_str("ADD"),
            Instruction::SUB { .. } => String::from_str("SUB"),
            Instruction::MUL { .. } => String::from_str("MUL"),
            Instruction::DIV { .. } => String::from_str("DIV"),
            Instruction::IDIV { .. } => String::from_str("IDIV"),
            Instruction::POW { .. } => String::from_str("POW"),
            Instruction::MOD { .. } => String::from_str("MOD"),
            Instruction::ADDK { .. } => String::from_str("ADDK"),
            Instruction::SUBK { .. } => String::from_str("SUBK"),
            Instruction::MULK { .. } => String::from_str("MULK"),
            Instruction::DIVK { .. } => String::from_str("DIVK"),
            Instruction::IDIVK { .. } => String::from_str("IDIVK"),
            Instruction::POWK { .. } => String::from_str("POWK"),
            Instruction::MODK { .. } => String::from_str("MODK"),
            Instruction::BXOR { .. } => String::from_str("BXOR"),
            Instruction::BAND { .. } => String::from_str("BAND"),
            Instruction::BOR { .. } => String::from_str("BOR"),
            Instruction::BLSH { .. } => String::from_str("BLSH"),
            Instruction::BRSH { .. } => String::from_str("BRSH"),
            Instruction::BARSH { .. } => String::from_str("BARSH"),
            Instruction::BNOT { .. } => String::from_str("BNOT"),
            Instruction::NEGATE { .. } => String::from_str("NEGATE"),
            Instruction::AND { .. } => String::from_str("AND"),
            Instruction::OR { .. } => String::from_str("OR"),
            Instruction::ANDK { .. } => String::from_str("ANDK"),
            Instruction::ORK { .. } => String::from_str("ORK"),
            Instruction::NULL_COALESCE { .. } => String::from_str("NULL_COALESCE"),
            Instruction::EQ { .. } => String::from_str("EQ"),
            Instruction::NEQ { .. } => String::from_str("NEQ"),
            Instruction::LT { .. } => String::from_str("LT"),
            Instruction::LTE { .. } => String::from_str("LTE"),
            Instruction::GT { .. } => String::from_str("GT"),
            Instruction::GTE { .. } => String::from_str("GTE"),
            Instruction::NOT { .. } => String::from_str("NOT"),
            Instruction::INC { .. } => String::from_str("INC"),
            Instruction::DEC { .. } => String::from_str("DEC"),
            Instruction::INDEX { .. } => String::from_str("INDEX"),
            Instruction::INDEXN { .. } => String::from_str("INDEXN"),
            Instruction::INDEXK { .. } => String::from_str("INDEXK"),
            Instruction::STORE_INDEX { .. } => String::from_str("STORE_INDEX"),
            Instruction::STORE_INDEXN { .. } => String::from_str("STORE_INDEXN"),
            Instruction::STORE_INDEXK { .. } => String::from_str("STORE_INDEXK"),
            Instruction::DELETE_INDEX { .. } => String::from_str("DELETE_INDEX"),
            Instruction::DELETE_INDEXN { .. } => String::from_str("DELETE_INDEXN"),
            Instruction::DELETE_INDEXK { .. } => String::from_str("DELETE_INDEXK"),
            Instruction::NEW_OBJECT(_) => String::from_str("NEW_OBJECT"),
            Instruction::NEW_ARRAY(_) => String::from_str("NEW_ARRAY"),
            Instruction::ARRAY_PUSH { .. } => String::from_str("ARRAY_PUSH"),
            Instruction::ARRAY_PUSHK { .. } => String::from_str("ARRAY_PUSHK"),
            Instruction::LEN { .. } => String::from_str("LEN"),
            Instruction::JMP(_) => String::from_str("JMP"),
            Instruction::JZ { .. } => String::from_str("JZ"),
            Instruction::JNZ { .. } => String::from_str("JNZ"),
            Instruction::JLT { .. } => String::from_str("JLT"),
            Instruction::JLTE { .. } => String::from_str("JLTE"),
            Instruction::JGT { .. } => String::from_str("JGT"),
            Instruction::JGTE { .. } => String::from_str("JGTE"),
            Instruction::JEQ { .. } => String::from_str("JEQ"),
            Instruction::JNEQ { .. } => String::from_str("JNEQ"),
            Instruction::STORE { .. } => String::from_str("STORE"),
            Instruction::STOREK { .. } => String::from_str("STOREK"),
            Instruction::LOAD { .. } => String::from_str("LOAD"),
            Instruction::CALL(_) => String::from_str("CALL"),
            Instruction::RETURN => String::from_str("RETURN"),
            Instruction::PRINT(_) => String::from_str("PRINT"),
            Instruction::PRINTK(_) => String::from_str("PRINTK"),
            Instruction::HALT => String::from_str("HALT"),
        }
    }
}

} // verus!
