//! The machine as mathematics: its state, and what each instruction does to it.

use crate::arith::{
    spec_arith, spec_bit_op, spec_narrowed, spec_negated, ArithOp, ArithView, BitOp, FloatRequest,
    Narrow,
};
use crate::display::{spec_print_line, PieceView};
use crate::error::vm::Fault;
use crate::heap::HeapView;
use crate::index::{spec_read_index, spec_read_position, spec_write_index, spec_write_position};
use crate::instruction::Instruction;
use crate::value::{Relation, Value};
use vstd::prelude::*;
use vstd::utf8::encode_utf8;

verus! {

/// An arithmetic instruction that waits for the answer to its request: the answer, narrowed,
/// goes to the target register.
#[derive(Debug, Clone, Copy, PartialEq, Eq, Structural)]
pub struct Pending {
    pub request: FloatRequest,
    pub target: usize,
    pub narrow: Narrow,
}

/// The two connectives on truthiness.
#[derive(Debug, Clone, Copy, PartialEq, Eq, Structural)]
pub enum LogicOp {
    And,
    Or,
}

/// The state of a machine as mathematics.
pub struct VmState {
    /// The address of the instruction to execute next.
    pub pc: usize,
    /// The register file, one file for all frames.
    pub registers: Seq<Value>,
    /// The variables, one namespace for all frames.
    pub variables: Map<Seq<char>, Value>,
    /// The return addresses of the calls that have not returned, the latest last.
    pub call_stack: Seq<usize>,
    /// The containers.
    pub heap: HeapView,
    /// The lines printed so far.
    pub output: Seq<Seq<PieceView>>,
    /// The arithmetic that waits for an answer, if any.
    pub pending: Option<Pending>,
}

/// The state after an instruction, and the fault if it ended in one.
pub struct Outcome {
    pub state: VmState,
    pub fault: Option<Fault>,
}

/// The instruction went through.
pub open spec fn done(state: VmState) -> Outcome {
    Outcome { state, fault: None }
}

/// The instruction ended in a fault.
pub open spec fn failed(state: VmState, fault: Fault) -> Outcome {
    Outcome { state, fault: Some(fault) }
}

/// The 32-bit integer that an integer one step beyond the range wraps around to.
pub open spec fn wrap(i: int) -> i32 {
    if i > i32::MAX {
        (i - 0x1_0000_0000) as i32
    } else if i < i32::MIN {
        (i + 0x1_0000_0000) as i32
    } else {
        i as i32
    }
}

/// The type that the faults of arithmetic say they expected.
pub open spec fn number_name() -> Seq<char> {
    "number"@
}

/// The type that the fault of appending says it expected.
pub open spec fn array_name() -> Seq<char> {
    "Array"@
}

impl VmState {
    /// The value of a register, or the fault for a register that does not exist.
    pub open spec fn register(self, index: usize) -> Result<Value, Fault> {
        if index < self.registers.len() {
            Ok(self.registers[index as int])
        } else {
            Err(Fault::RegisterOutOfBounds(index))
        }
    }

    /// The values of two registers, the first looked at first.
    pub open spec fn operands(self, a: usize, b: usize) -> Result<(Value, Value), Fault> {
        match self.register(a) {
            Err(fault) => Err(fault),
            Ok(x) => match self.register(b) {
                Err(fault) => Err(fault),
                Ok(y) => Ok((x, y)),
            },
        }
    }

    /// Puts a value into a register.
    pub open spec fn set_register(self, index: usize, value: Value) -> Outcome {
        if index < self.registers.len() {
            done(VmState { registers: self.registers.update(index as int, value), ..self })
        } else {
            failed(self, Fault::RegisterOutOfBounds(index))
        }
    }

    /// The value of a variable, or the fault for a name that nothing was bound to.
    pub open spec fn lookup(self, name: Seq<char>) -> Result<Value, Fault> {
        if self.variables.dom().contains(name) {
            Ok(self.variables[name])
        } else {
            Err(Fault::VariableNotFound(name))
        }
    }

    /// Binds a variable.
    pub open spec fn set_variable(self, name: Seq<char>, value: Value) -> VmState {
        VmState { variables: self.variables.insert(name, value), ..self }
    }

    /// Goes on at an address of the program; an address beyond it is a fault that leaves the
    /// program counter alone.
    pub open spec fn jump(self, count: usize, address: usize) -> Outcome {
        if address >= count {
            failed(self, Fault::ProgramCounterOutOfBounds)
        } else {
            done(VmState { pc: address, ..self })
        }
    }

    /// Jumps where the condition holds.
    pub open spec fn jump_if(self, count: usize, taken: bool, address: usize) -> Outcome {
        if taken {
            self.jump(count, address)
        } else {
            done(self)
        }
    }

    /// Calls the subroutine at an address: the program counter, which already stands behind
    /// the call, is pushed as the return address.
    pub open spec fn call(self, count: usize, address: usize) -> Outcome {
        if address >= count {
            failed(self, Fault::ProgramCounterOutOfBounds)
        } else {
            done(VmState { pc: address, call_stack: self.call_stack.push(self.pc), ..self })
        }
    }

    /// Returns to the address that the latest call pushed.
    pub open spec fn call_return(self) -> Outcome {
        if self.call_stack.len() == 0 {
            failed(self, Fault::CallStackEmpty)
        } else {
            done(
                VmState {
                    pc: self.call_stack.last(),
                    call_stack: self.call_stack.drop_last(),
                    ..self
                },
            )
        }
    }

    /// Arithmetic on two values: the result goes to the target, or the machine comes to wait
    /// for the answer to a request, or the operands are a mismatch.
    pub open spec fn arithmetic(
        self,
        op: ArithOp,
        name: Seq<char>,
        target: usize,
        a: Value,
        b: Value,
    ) -> Outcome {
        match spec_arith(op, a, b) {
            ArithView::Done(v) => self.set_register(target, v),
            ArithView::Ask(request, narrow) => done(
                VmState { pending: Some(Pending { request, target, narrow }), ..self },
            ),
            ArithView::Mismatch => failed(
                self,
                Fault::BinaryTypeMismatch {
                    opcode_name: name,
                    expected: number_name(),
                    a_actual: a.kind_name(),
                    b_actual: b.kind_name(),
                },
            ),
        }
    }

    /// Arithmetic on two registers.
    pub open spec fn arith_registers(
        self,
        op: ArithOp,
        name: Seq<char>,
        target: usize,
        a: usize,
        b: usize,
    ) -> Outcome {
        match self.operands(a, b) {
            Err(fault) => failed(self, fault),
            Ok((x, y)) => self.arithmetic(op, name, target, x, y),
        }
    }

    /// Arithmetic on an immediate value and a register.
    pub open spec fn arith_immediate(
        self,
        op: ArithOp,
        name: Seq<char>,
        target: usize,
        a: Value,
        b: usize,
    ) -> Outcome {
        match self.register(b) {
            Err(fault) => failed(self, fault),
            Ok(y) => self.arithmetic(op, name, target, a, y),
        }
    }

    /// An operation on the bits of two registers, which must both hold integers.
    pub open spec fn bitwise(self, op: BitOp, name: Seq<char>, target: usize, a: usize, b: usize) -> Outcome {
        match self.operands(a, b) {
            Err(fault) => failed(self, fault),
            Ok((Value::Int(x), Value::Int(y))) => self.set_register(
                target,
                Value::Int(spec_bit_op(op, x, y)),
            ),
            Ok((x, y)) => failed(
                self,
                Fault::BinaryTypeMismatch {
                    opcode_name: name,
                    expected: number_name(),
                    a_actual: x.kind_name(),
                    b_actual: y.kind_name(),
                },
            ),
        }
    }

    /// The complement of the bits of a register, which must hold an integer.
    pub open spec fn bit_not(self, target: usize, operand: usize) -> Outcome {
        match self.register(operand) {
            Err(fault) => failed(self, fault),
            Ok(Value::Int(x)) => self.set_register(target, Value::Int(!x)),
            Ok(x) => failed(
                self,
                Fault::OperandTypeMismatch { expected: number_name(), actual: x.kind_name() },
            ),
        }
    }

    /// The negation of a register, which must hold a number.
    pub open spec fn negate(self, target: usize, operand: usize) -> Outcome {
        match self.register(operand) {
            Err(fault) => failed(self, fault),
            Ok(x) => match spec_negated(x) {
                Some(v) => self.set_register(target, v),
                None => failed(
                    self,
                    Fault::OperandTypeMismatch { expected: number_name(), actual: x.kind_name() },
                ),
            },
        }
    }

    /// A connective on the truthiness of two values.
    pub open spec fn logical(self, op: LogicOp, target: usize, a: Value, b: Value) -> Outcome {
        self.set_register(
            target,
            Value::Boolean(
                match op {
                    LogicOp::And => a.is_truthy() && b.is_truthy(),
                    LogicOp::Or => a.is_truthy() || b.is_truthy(),
                },
            ),
        )
    }

    /// A connective on the truthiness of two registers.
    pub open spec fn logical_registers(self, op: LogicOp, target: usize, a: usize, b: usize) -> Outcome {
        match self.operands(a, b) {
            Err(fault) => failed(self, fault),
            Ok((x, y)) => self.logical(op, target, x, y),
        }
    }

    /// A connective on the truthiness of an immediate value and a register.
    pub open spec fn logical_immediate(self, op: LogicOp, target: usize, a: Value, b: usize) -> Outcome {
        match self.register(b) {
            Err(fault) => failed(self, fault),
            Ok(y) => self.logical(op, target, a, y),
        }
    }

    /// The negation of the truthiness of a register.
    pub open spec fn logical_not(self, target: usize, operand: usize) -> Outcome {
        match self.register(operand) {
            Err(fault) => failed(self, fault),
            Ok(x) => self.set_register(target, Value::Boolean(!x.is_truthy())),
        }
    }

    /// The first of two registers unless it holds `Null`, else the second.
    pub open spec fn null_coalesce(self, target: usize, a: usize, b: usize) -> Outcome {
        match self.operands(a, b) {
            Err(fault) => failed(self, fault),
            Ok((x, y)) => self.set_register(
                target,
                if x is Null {
                    y
                } else {
                    x
                },
            ),
        }
    }

    /// Whether a relation holds between two registers, as a boolean in the target.
    pub open spec fn comparison(self, relation: Relation, target: usize, a: usize, b: usize) -> Outcome {
        match self.operands(a, b) {
            Err(fault) => failed(self, fault),
            Ok((x, y)) => self.set_register(target, Value::Boolean(x.relates(relation, y))),
        }
    }

    /// A jump that is taken where a relation holds between two registers.
    pub open spec fn jump_related(
        self,
        count: usize,
        relation: Relation,
        a: usize,
        b: usize,
        address: usize,
    ) -> Outcome {
        match self.operands(a, b) {
            Err(fault) => failed(self, fault),
            Ok((x, y)) => self.jump_if(count, x.relates(relation, y), address),
        }
    }

    /// A jump that is taken where the truthiness of a register is as wanted.
    pub open spec fn jump_truthy(self, count: usize, wanted: bool, source: usize, address: usize) -> Outcome {
        match self.register(source) {
            Err(fault) => failed(self, fault),
            Ok(x) => self.jump_if(count, x.is_truthy() == wanted, address),
        }
    }

    /// Adds `amount` to the integer variable `name`, wrapping around at the bounds. The
    /// variable is rebound first; then the target, where there is one, gets the old or the
    /// new value.
    pub open spec fn incrementor(
        self,
        target: Option<usize>,
        name: Seq<char>,
        returns_old: bool,
        amount: int,
    ) -> Outcome {
        match self.lookup(name) {
            Err(fault) => failed(self, fault),
            Ok(Value::Int(n)) => {
                let new_value = Value::Int(wrap(n + amount));
                let bound = self.set_variable(name, new_value);
                match target {
                    Some(register) => bound.set_register(
                        register,
                        if returns_old {
                            Value::Int(n)
                        } else {
                            new_value
                        },
                    ),
                    None => done(bound),
                }
            },
            Ok(other) => failed(
                self,
                Fault::OperandTypeMismatch { expected: number_name(), actual: other.kind_name() },
            ),
        }
    }

    /// Reads `object[key]` into the target.
    pub open spec fn index(self, target: usize, object: usize, key: Value) -> Outcome {
        match self.register(object) {
            Err(fault) => failed(self, fault),
            Ok(container) => match spec_read_index(self.heap, container, key) {
                Err(fault) => failed(self, fault),
                Ok(v) => self.set_register(target, v),
            },
        }
    }

    /// Reads `object[index]` into the target, the key in a register.
    pub open spec fn index_register(self, target: usize, object: usize, index: usize) -> Outcome {
        match self.register(index) {
            Err(fault) => failed(self, fault),
            Ok(key) => self.index(target, object, key),
        }
    }

    /// Reads `object[position]` into the target.
    pub open spec fn index_known(self, target: usize, object: usize, position: usize) -> Outcome {
        match self.register(object) {
            Err(fault) => failed(self, fault),
            Ok(container) => self.set_register(
                target,
                spec_read_position(self.heap, container, position),
            ),
        }
    }

    /// Writes a value to `object[key]`.
    pub open spec fn write(self, object: usize, key: Value, value: Value) -> Outcome {
        match self.register(object) {
            Err(fault) => failed(self, fault),
            Ok(container) => match spec_write_index(self.heap, container, key, value) {
                Err(fault) => failed(self, fault),
                Ok(heap) => done(VmState { heap, ..self }),
            },
        }
    }

    /// Writes a value to `object[position]`.
    pub open spec fn write_known(self, object: usize, position: usize, value: Value) -> Outcome {
        match self.register(object) {
            Err(fault) => failed(self, fault),
            Ok(container) => done(
                VmState {
                    heap: spec_write_position(self.heap, container, position, value),
                    ..self
                },
            ),
        }
    }

    /// `object[key] = source`
    pub open spec fn new_index(self, object: usize, key: Value, source: usize) -> Outcome {
        match self.register(source) {
            Err(fault) => failed(self, fault),
            Ok(value) => self.write(object, key, value),
        }
    }

    /// `object[index] = source`, the key in a register.
    pub open spec fn new_index_register(self, object: usize, index: usize, source: usize) -> Outcome {
        match self.register(index) {
            Err(fault) => failed(self, fault),
            Ok(key) => self.new_index(object, key, source),
        }
    }

    /// `object[position] = source`
    pub open spec fn new_index_known(self, object: usize, position: usize, source: usize) -> Outcome {
        match self.register(source) {
            Err(fault) => failed(self, fault),
            Ok(value) => self.write_known(object, position, value),
        }
    }

    /// `object[index] = Null`, the key in a register.
    pub open spec fn delete_index_register(self, object: usize, index: usize) -> Outcome {
        match self.register(index) {
            Err(fault) => failed(self, fault),
            Ok(key) => self.write(object, key, Value::Null),
        }
    }

    /// Puts a new, empty object into the target. The object is made even where the target
    /// does not exist.
    pub open spec fn new_object(self, target: usize) -> Outcome {
        VmState { heap: self.heap.with_object(), ..self }.set_register(
            target,
            Value::Object(self.heap.objects.len() as usize),
        )
    }

    /// Puts a new, empty array into the target. The array is made even where the target does
    /// not exist.
    pub open spec fn new_array(self, target: usize) -> Outcome {
        VmState { heap: self.heap.with_array(), ..self }.set_register(
            target,
            Value::Array(self.heap.arrays.len() as usize),
        )
    }

    /// Appends a value to the array in the target.
    pub open spec fn array_push(self, target: usize, value: Value) -> Outcome {
        match self.register(target) {
            Err(fault) => failed(self, fault),
            Ok(Value::Array(id)) => done(VmState { heap: self.heap.array_push(id, value), ..self }),
            Ok(other) => failed(
                self,
                Fault::OperandTypeMismatch { expected: array_name(), actual: other.kind_name() },
            ),
        }
    }

    /// Appends the value of a register to the array in the target.
    pub open spec fn array_push_register(self, target: usize, source: usize) -> Outcome {
        match self.register(source) {
            Err(fault) => failed(self, fault),
            Ok(value) => self.array_push(target, value),
        }
    }

    /// The length of the array in the source, or of the string in UTF-8 bytes, as a 32-bit
    /// integer in the target; nothing happens for any other value.
    pub open spec fn length(self, target: usize, source: usize) -> Outcome {
        match self.register(source) {
            Err(fault) => failed(self, fault),
            Ok(Value::Array(id)) => self.set_register(
                target,
                Value::Int((self.heap.array(id).len() as usize) as i32),
            ),
            Ok(Value::Str(s)) => self.set_register(target, Value::Int((encode_utf8(s).len() as usize) as i32)),
            Ok(_) => done(self),
        }
    }

    /// Binds a variable to the value of a register.
    pub open spec fn store(self, source: usize, name: Seq<char>) -> Outcome {
        match self.register(source) {
            Err(fault) => failed(self, fault),
            Ok(value) => done(self.set_variable(name, value)),
        }
    }

    /// Puts the value of a variable into a register.
    pub open spec fn load(self, target: usize, name: Seq<char>) -> Outcome {
        match self.lookup(name) {
            Err(fault) => failed(self, fault),
            Ok(value) => self.set_register(target, value),
        }
    }

    /// Prints a value as a line of its own.
    pub open spec fn print(self, value: Value) -> VmState {
        VmState { output: self.output.push(spec_print_line(self.heap, value)), ..self }
    }

    /// Prints the value of a register.
    pub open spec fn print_register(self, source: usize) -> Outcome {
        match self.register(source) {
            Err(fault) => failed(self, fault),
            Ok(value) => done(self.print(value)),
        }
    }

    /// The machine has run off the end of a program of `count` instructions.
    pub open spec fn finished(self, count: nat) -> bool {
        self.pc >= count
    }

    /// The machine after the answer to its request has come: the answer, narrowed as the
    /// request was made, goes to the target. Without a request nothing happens.
    pub open spec fn resume(self, answer: u64) -> Outcome {
        match self.pending {
            None => done(self),
            Some(pending) => VmState { pending: None, ..self }.set_register(
                pending.target,
                spec_narrowed(pending.narrow, answer),
            ),
        }
    }
}

/// What an instruction does to a machine whose program counter already stands behind it, in
/// a program of `count` instructions.
#[verifier::opaque]
pub open spec fn execute(s: VmState, count: usize, ins: Instruction) -> Outcome {
    let name = ins.opcode_name();
    match ins {
        Instruction::LOADV { target, value } => s.set_register(target, value@),
        Instruction::ADD { target, a, b } => s.arith_registers(ArithOp::Add, name, target, a, b),
        Instruction::SUB { target, a, b } => s.arith_registers(ArithOp::Sub, name, target, a, b),
        Instruction::MUL { target, a, b } => s.arith_registers(ArithOp::Mul, name, target, a, b),
        Instruction::DIV { target, a, b } => s.arith_registers(ArithOp::Div, name, target, a, b),
        Instruction::IDIV { target, a, b } => s.arith_registers(
            ArithOp::FloorDiv,
            name,
            target,
            a,
            b,
        ),
        Instruction::POW { target, a, b } => s.arith_registers(ArithOp::Pow, name, target, a, b),
        Instruction::MOD { target, a, b } => s.arith_registers(ArithOp::Rem, name, target, a, b),
        Instruction::ADDK { target, a_value, b } => s.arith_immediate(
            ArithOp::Add,
            name,
            target,
            a_value@,
            b,
        ),
        Instruction::SUBK { target, a_value, b } => s.arith_immediate(
            ArithOp::Sub,
            name,
            target,
            a_value@,
            b,
        ),
        Instruction::MULK { target, a_value, b } => s.arith_immediate(
            ArithOp::Mul,
            name,
            target,
            a_value@,
            b,
        ),
        Instruction::DIVK { target, a_value, b } => s.arith_immediate(
            ArithOp::Div,
            name,
            target,
            a_value@,
            b,
        ),
        Instruction::IDIVK { target, a_value, b } => s.arith_immediate(
            ArithOp::FloorDiv,
            name,
            target,
            a_value@,
            b,
        ),
        Instruction::POWK { target, a_value, b } => s.arith_immediate(
            ArithOp::Pow,
            name,
            target,
            a_value@,
            b,
        ),
        Instruction::MODK { target, a_value, b } => s.arith_immediate(
            ArithOp::Rem,
            name,
            target,
            a_value@,
            b,
        ),
        Instruction::BXOR { target, a, b } => s.bitwise(BitOp::Xor, name, target, a, b),
        Instruction::BAND { target, a, b } => s.bitwise(BitOp::And, name, target, a, b),
        Instruction::BOR { target, a, b } => s.bitwise(BitOp::Or, name, target, a, b),
        Instruction::BLSH { target, a, b } => s.bitwise(BitOp::ShiftLeft, name, target, a, b),
        Instruction::BRSH { target, a, b } => s.bitwise(BitOp::ShiftRight, name, target, a, b),
        Instruction::BARSH { target, a, b } => s.bitwise(
            BitOp::ShiftRightArithmetic,
            name,
            target,
            a,
            b,
        ),
        Instruction::BNOT { target, operand } => s.bit_not(target, operand),
        Instruction::NEGATE { target, operand } => s.negate(target, operand),
        Instruction::AND { target, a, b } => s.logical_registers(LogicOp::And, target, a, b),
        Instruction::OR { target, a, b } => s.logical_registers(LogicOp::Or, target, a, b),
        Instruction::ANDK { target, a_value, b } => s.logical_immediate(
            LogicOp::And,
            target,
            a_value@,
            b,
        ),
        Instruction::ORK { target, a_value, b } => s.logical_immediate(
            LogicOp::Or,
            target,
            a_value@,
            b,
        ),
        Instruction::NULL_COALESCE { target, a, b } => s.null_coalesce(target, a, b),
        Instruction::EQ { target, a, b } => s.comparison(Relation::Equal, target, a, b),
        Instruction::NEQ { target, a, b } => s.comparison(Relation::NotEqual, target, a, b),
        Instruction::LT { target, a, b } => s.comparison(Relation::Less, target, a, b),
        Instruction::LTE { target, a, b } => s.comparison(Relation::LessOrEqual, target, a, b),
        Instruction::GT { target, a, b } => s.comparison(Relation::Greater, target, a, b),
        Instruction::GTE { target, a, b } => s.comparison(Relation::GreaterOrEqual, target, a, b),
        Instruction::NOT { target, operand } => s.logical_not(target, operand),
        Instruction::INC { target, name, returns_old } => s.incrementor(
            target,
            name@,
            returns_old,
            1,
        ),
        Instruction::DEC { target, name, returns_old } => s.incrementor(
            target,
            name@,
            returns_old,
            -1,
        ),
        Instruction::INDEX { target, object, index } => s.index_register(target, object, index),
        Instruction::INDEXN { target, object, index } => s.index_known(target, object, index),
        Instruction::INDEXK { target, object, index } => s.index(target, object, index@),
        Instruction::STORE_INDEX { source, object, index } => s.new_index_register(
            object,
            index,
            source,
        ),
        Instruction::STORE_INDEXN { source, object, index } => s.new_index_known(
            object,
            index,
            source,
        ),
        Instruction::STORE_INDEXK { source, object, index } => s.new_index(object, index@, source),
        Instruction::DELETE_INDEX { object, index } => s.delete_index_register(object, index),
        Instruction::DELETE_INDEXN { object, index } => s.write_known(object, index, Value::Null),
        Instruction::DELETE_INDEXK { object, index } => s.write(object, index@, Value::Null),
        Instruction::NEW_OBJECT(target) => s.new_object(target),
        Instruction::NEW_ARRAY(target) => s.new_array(target),
        Instruction::ARRAY_PUSH { target, source } => s.array_push_register(target, source),
        Instruction::ARRAY_PUSHK { target, value } => s.array_push(target, value@),
        Instruction::LEN { target, source } => s.length(target, source),
        Instruction::JMP(address) => s.jump(count, address),
        Instruction::JZ { source, address } => s.jump_truthy(count, false, source, address),
        Instruction::JNZ { source, address } => s.jump_truthy(count, true, source, address),
        Instruction::JLT { a, b, address } => s.jump_related(count, Relation::Less, a, b, address),
        Instruction::JLTE { a, b, address } => s.jump_related(
            count,
            Relation::LessOrEqual,
            a,
            b,
            address,
        ),
        Instruction::JGT { a, b, address } => s.jump_related(
            count,
            Relation::Greater,
            a,
            b,
            address,
        ),
        Instruction::JGTE { a, b, address } => s.jump_related(
            count,
            Relation::GreaterOrEqual,
            a,
            b,
            address,
        ),
        Instruction::JEQ { a, b, address } => s.jump_related(count, Relation::Equal, a, b, address),
        Instruction::JNEQ { a, b, address } => s.jump_related(
            count,
            Relation::NotEqual,
            a,
            b,
            address,
        ),
        Instruction::STORE { source, name } => s.store(source, name@),
        Instruction::STOREK { name, value } => done(s.set_variable(name@, value@)),
        Instruction::LOAD { target, name } => s.load(target, name@),
        Instruction::CALL(address) => s.call(count, address),
        Instruction::RETURN => s.call_return(),
        Instruction::PRINT(source) => s.print_register(source),
        Instruction::PRINTK(value) => done(s.print(value@)),
        Instruction::HALT => done(VmState { pc: count, ..s }),
    }
}

/// One turn of the machine on a program: nothing where it waits for an answer or has run off
/// the end; else the instruction under the program counter is fetched, the counter moves
/// behind it, and the instruction is executed.
pub open spec fn step(program: Seq<Instruction>, s: VmState) -> Outcome {
    if s.pending.is_some() || s.finished(program.len()) {
        done(s)
    } else {
        execute(
            VmState { pc: (s.pc + 1) as usize, ..s },
            program.len() as usize,
            program[s.pc as int],
        )
    }
}

/// The machine after it has run for at most `fuel` turns: it stops before that at the first
/// fault, where it comes to wait for an answer, and where it has run off the end.
pub open spec fn runs(program: Seq<Instruction>, s: VmState, fuel: nat) -> Outcome
    decreases fuel,
{
    if fuel == 0 || s.pending.is_some() || s.finished(program.len()) {
        done(s)
    } else {
        let next = step(program, s);
        if next.fault.is_some() {
            next
        } else {
            runs(program, next.state, (fuel - 1) as nat)
        }
    }
}

} // verus!
