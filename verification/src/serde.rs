//! Programs, and their form as bytes.

pub mod deserializer;
pub mod record;
pub mod serializer;
pub mod wire;

use crate::heap::{Heap, HeapView};
use crate::instruction::Instruction;
use crate::serde::record::{spec_record, RecordView};
use crate::value::{views, Value, VmValue};
use vstd::prelude::*;

verus! {

/// The version that new programs carry.
pub const CURRENT_VERSION: u8 = 0;

/// A program: a version, a pool of constants, the instructions, and the heap that holds the
/// containers which immediate values of the instructions name. A run starts from a copy of
/// that heap and never writes to the program.
#[derive(Debug)]
pub struct Program {
    pub version: u8,
    pub constant_pool: Vec<VmValue>,
    pub instructions: Vec<Instruction>,
    pub heap: Heap,
}

/// The mathematical content of a [`Program`]: an instruction is its record.
pub struct ProgramView {
    pub version: u8,
    pub constant_pool: Seq<Value>,
    pub instructions: Seq<RecordView>,
    pub heap: HeapView,
}

/// The records of a sequence of instructions, one for one.
pub open spec fn records(instructions: Seq<Instruction>) -> Seq<RecordView> {
    instructions.map_values(|i: Instruction| spec_record(i))
}

impl View for Program {
    type V = ProgramView;

    open spec fn view(&self) -> ProgramView {
        ProgramView {
            version: self.version,
            constant_pool: views(self.constant_pool@),
            instructions: records(self.instructions@),
            heap: self.heap@,
        }
    }
}

/// Why bytes are not taken for a program.
#[derive(Debug, Clone, Copy, PartialEq, Eq, Structural)]
pub enum ProgramError {
    /// The bytes are those of a program of another version than this library reads.
    UnsupportedVersion(u8),
    /// The bytes are not those of any program.
    DecodeError,
}

impl Program {
    /// A program of the current version without containers of its own.
    pub fn new(instructions: Vec<Instruction>, constant_pool: Vec<VmValue>) -> (program: Self)
        ensures
            program.version == CURRENT_VERSION,
            program.instructions == instructions,
            program.constant_pool == constant_pool,
            program.heap@ == HeapView::empty(),
    {
        Self { version: CURRENT_VERSION, instructions, constant_pool, heap: Heap::new() }
    }

    /// A program of the current version with an empty constant pool.
    pub fn from_instructions(instructions: Vec<Instruction>) -> (program: Self)
        ensures
            program.version == CURRENT_VERSION,
            program.instructions == instructions,
            program.constant_pool@.len() == 0,
            program.heap@ == HeapView::empty(),
    {
        Self {
            version: CURRENT_VERSION,
            instructions,
            constant_pool: Vec::new(),
            heap: Heap::new(),
        }
    }

    /// A program of the current version whose immediate values name containers of `heap`.
    pub fn with_heap(instructions: Vec<Instruction>, constant_pool: Vec<VmValue>, heap: Heap) -> (program:
        Self)
        ensures
            program.version == CURRENT_VERSION,
            program.instructions == instructions,
            program.constant_pool == constant_pool,
            program.heap == heap,
    {
        Self { version: CURRENT_VERSION, instructions, constant_pool, heap }
    }
}

} // verus!
