//! The faults that end a run.

use crate::text::{decimal, usize_text};
use vstd::prelude::*;
use vstd::string::*;

verus! {

/// A fault that ends a run. Every fault is fatal: the engine hands the first one to its caller
/// and executes nothing more.
#[derive(Debug)]
pub enum VmError {
    /// A register operand names a register that the file does not have.
    RegisterOutOfBounds(usize),
    /// A variable was read before anything was bound to its name.
    VariableNotFound(String),
    /// A jump or call targets an address outside the instruction sequence.
    ProgramCounterOutOfBounds,
    /// A return found no frame to pop.
    CallStackEmpty,
    /// A value that is no container was asked for as one; the payload describes its type.
    AttemptToIndex(String),
    /// An array or string was indexed by something that is no valid position.
    InvalidIndexType(String),
    /// A unary operation or an increment met an operand of the wrong type.
    OperandTypeMismatch { expected: String, actual: String },
    /// A binary operation met operands of the wrong types.
    BinaryTypeMismatch { opcode_name: String, expected: String, a_actual: String, b_actual: String },
}

/// The mathematical content of a [`VmError`]: the same cases, with texts as character sequences.
pub enum Fault {
    RegisterOutOfBounds(usize),
    VariableNotFound(Seq<char>),
    ProgramCounterOutOfBounds,
    CallStackEmpty,
    AttemptToIndex(Seq<char>),
    InvalidIndexType(Seq<char>),
    OperandTypeMismatch { expected: Seq<char>, actual: Seq<char> },
    BinaryTypeMismatch {
        opcode_name: Seq<char>,
        expected: Seq<char>,
        a_actual: Seq<char>,
        b_actual: Seq<char>,
    },
}

impl Fault {
    /// The human-readable sentence for this fault.
    pub open spec fn message(self) -> Seq<char> {
        match self {
            Fault::RegisterOutOfBounds(index) => "Invalid register index: "@ + decimal(
                index as int,
            ),
            Fault::VariableNotFound(name) => "Variable '"@ + name + "' not found in local scope"@,
            Fault::ProgramCounterOutOfBounds => "Program counter out of bounds"@,
            Fault::CallStackEmpty => "Call stack is empty, cannot return"@,
            Fault::AttemptToIndex(actual) => "Attempt to index '"@ + actual + "'"@,
            Fault::InvalidIndexType(actual) => "Invalid index type, got '"@ + actual + "'"@,
            Fault::OperandTypeMismatch { expected, actual } => "Expected type '"@ + expected
                + "', got '"@ + actual + "'"@,
            Fault::BinaryTypeMismatch { opcode_name, expected, a_actual, b_actual } =>
                "Expected type '"@ + expected + "' for operands of '"@ + opcode_name
                    + "' operation, got '"@ + a_actual + "' "@ + opcode_name + " '"@ + b_actual
                    + "'"@,
        }
    }
}

impl View for VmError {
    type V = Fault;

    open spec fn view(&self) -> Fault {
        match self {
            VmError::RegisterOutOfBounds(index) => Fault::RegisterOutOfBounds(*index),
            VmError::VariableNotFound(name) => Fault::VariableNotFound(name@),
            VmError::ProgramCounterOutOfBounds => Fault::ProgramCounterOutOfBounds,
            VmError::CallStackEmpty => Fault::CallStackEmpty,
            VmError::AttemptToIndex(actual) => Fault::AttemptToIndex(actual@),
            VmError::InvalidIndexType(actual) => Fault::InvalidIndexType(actual@),
            VmError::OperandTypeMismatch { expected, actual } => Fault::OperandTypeMismatch {
                expected: expected@,
                actual: actual@,
            },
            VmError::BinaryTypeMismatch { opcode_name, expected, a_actual, b_actual } =>
                Fault::BinaryTypeMismatch {
                    opcode_name: opcode_name@,
                    expected: expected@,
                    a_actual: a_actual@,
                    b_actual: b_actual@,
                },
        }
    }
}

impl VmError {
    /// Renders the fault as a sentence for a person to read.
    pub fn to_string(&self) -> (r: String)
        ensures
            r@ == self@.message(),
    {
        match self {
            VmError::RegisterOutOfBounds(index) => {
                let number = usize_text(*index);
                String::from_str("Invalid register index: ").concat(number.as_str())
            },
            VmError::VariableNotFound(name) => {
                String::from_str("Variable '").concat(name.as_str()).concat(
                    "' not found in local scope",
                )
            },
            VmError::ProgramCounterOutOfBounds => String::from_str("Program counter out of bounds"),
            VmError::CallStackEmpty => String::from_str("Call stack is empty, cannot return"),
            VmError::AttemptToIndex(actual) => {
                String::from_str("Attempt to index '").concat(actual.as_str()).concat("'")
            },
            VmError::InvalidIndexType(actual) => {
                String::from_str("Invalid index type, got '").concat(actual.as_str()).concat("'")
            },
            VmError::OperandTypeMismatch { expected, actual } => {
                String::from_str("Expected type '").concat(expected.as_str()).concat(
                    "', got '",
                ).concat(actual.as_str()).concat("'")
            },
            VmError::BinaryTypeMismatch { opcode_name, expected, a_actual, b_actual } => {
                String::from_str("Expected type '").concat(expected.as_str()).concat(
                    "' for operands of '",
                ).concat(opcode_name.as_str()).concat("' operation, got '").concat(
                    a_actual.as_str(),
                ).concat("' ").concat(opcode_name.as_str()).concat(" '").concat(
                    b_actual.as_str(),
                ).concat("'")
            },
        }
    }
}

} // verus!
