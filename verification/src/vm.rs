//! The machine: fetch, execute, and run.

use crate::arith::{arith, bit_op, narrowed, negated, Arith, ArithOp, BitOp};
use crate::array::DynamicArray;
use crate::display::{piece_views, print_line, Piece};
use crate::error::vm::VmError;
use crate::heap::Heap;
use crate::index::{read_index, read_position, value_result, write_index, write_position};
use crate::instruction::Instruction;
use crate::object::Object;
use crate::serde::Program;
use crate::state::{execute, runs, step, LogicOp, Outcome, Pending, VmState};
use crate::text::{decimal, usize_text};
use crate::value::{views, Relation, Value, VmValue};
use vstd::hash_map::StringHashMap;
use vstd::prelude::*;
use vstd::string::*;

verus! {

/// A call-stack entry: where to go on once the callee returns.
#[derive(Debug)]
pub struct Frame {
    pub return_address: usize,
}

impl Frame {
    /// A frame that returns to the address.
    pub fn new(return_address: usize) -> (frame: Self)
        ensures
            frame.return_address == return_address,
    {
        Self { return_address }
    }
}

/// A machine that runs one program. It has one register file and one namespace of variables
/// for all call frames; a frame holds a return address and nothing else.
///
/// The machine does no arithmetic on floats and writes nothing out. Where an instruction
/// needs a float computed, the machine stops with the request in `pending` and goes on once
/// [`Vm::resume`] is given the answer. What the program prints is collected in `output`.
pub struct Vm<'a> {
    pub pc: usize,
    pub registers: Vec<VmValue>,
    pub program: &'a Program,
    pub variables: StringHashMap<VmValue>,
    pub call_stack: Vec<Frame>,
    pub heap: Heap,
    pub output: Vec<Vec<Piece>>,
    pub pending: Option<Pending>,
}

impl<'a> View for Vm<'a> {
    type V = VmState;

    open spec fn view(&self) -> VmState {
        VmState {
            pc: self.pc,
            registers: views(self.registers@),
            variables: self.variables@.map_values(|v: VmValue| v@),
            call_stack: self.call_stack@.map_values(|f: Frame| f.return_address),
            heap: self.heap@,
            output: self.output@.map_values(|line: Vec<Piece>| piece_views(line@)),
            pending: self.pending,
        }
    }
}

/// The lines for the `n` latest frames of a call stack, the latest first: each gives the
/// frame's distance from the top and its return address.
pub open spec fn frames_text(stack: Seq<usize>, n: nat) -> Seq<char>
    decreases n,
{
    if n == 0 || n > stack.len() {
        Seq::empty()
    } else {
        frames_text(stack, (n - 1) as nat) + "  frame "@ + decimal(n - 1)
            + ": return address -> "@ + decimal(stack[stack.len() - n] as int) + "\n"@
    }
}

/// A call stack as text for a person to read.
pub open spec fn callstack_text(stack: Seq<usize>) -> Seq<char> {
    if stack.len() == 0 {
        "(empty call stack)"@
    } else {
        "call stack:\n"@ + frames_text(stack, stack.len())
    }
}

/// A state and the result of the call that led to it, as an outcome.
pub open spec fn outcome(state: VmState, r: Result<(), VmError>) -> Outcome {
    Outcome {
        state,
        fault: match r {
            Ok(_) => None,
            Err(e) => Some(e@),
        },
    }
}

impl<'a> Vm<'a> {
    /// A machine at the start of a program, with `register_count` registers that hold
    /// `Null`, no variables, no frames, and a copy of the program's heap.
    pub fn new(program: &'a Program, register_count: usize) -> (vm: Self)
        ensures
            vm.program == program,
            vm@ == (VmState {
                pc: 0,
                registers: Seq::new(register_count as nat, |i: int| Value::Null),
                variables: Map::empty(),
                call_stack: Seq::empty(),
                heap: program.heap@,
                output: Seq::empty(),
                pending: None,
            }),
    {
        let mut registers: Vec<VmValue> = Vec::new();
        while registers.len() < register_count
            invariant
                registers@.len() <= register_count,
                forall|k: int| 0 <= k < registers@.len() ==> (#[trigger] registers@[k])@ == Value::Null,
            decreases register_count - registers.len(),
        {
            registers.push(VmValue::Null);
        }
        let vm = Vm {
            pc: 0,
            registers,
            program,
            variables: StringHashMap::new(),
            call_stack: Vec::new(),
            heap: program.heap.duplicate(),
            output: Vec::new(),
            pending: None,
        };
        proof {
            assert(vm@.registers =~= Seq::new(register_count as nat, |i: int| Value::Null));
            assert(vm@.variables =~= Map::empty());
            assert(vm@.call_stack =~= Seq::empty());
            assert(vm@.output =~= Seq::empty());
        }
        vm
    }

    /// The call stack as text: a line for each frame, the latest first.
    pub fn visualize_callstack(&self) -> (r: String)
        ensures
            r@ == callstack_text(self@.call_stack),
    {
        if self.call_stack.len() == 0 {
            return String::from_str("(empty call stack)");
        }
        let mut text = String::from_str("call stack:\n");
        let length = self.call_stack.len();
        let mut i: usize = 0;
        assert(text@ =~= "call stack:\n"@ + frames_text(self@.call_stack, 0));
        while i < length
            invariant
                i <= length,
                length == self.call_stack@.len(),
                length == self@.call_stack.len(),
                text@ == "call stack:\n"@ + frames_text(self@.call_stack, i as nat),
            decreases length - i,
        {
            let frame = &self.call_stack[length - 1 - i];
            assert(frame.return_address == self@.call_stack[length - (i + 1)]);
            text.append("  frame ");
            text.append(usize_text(i).as_str());
            text.append(": return address -> ");
            text.append(usize_text(frame.return_address).as_str());
            text.append("\n");
            i += 1;
            assert(text@ =~= "call stack:\n"@ + frames_text(self@.call_stack, i as nat));
        }
        text
    }

    /// The number of instructions of the program.
    pub fn instruction_count(&self) -> (count: usize)
        ensures
            count == self.program.instructions@.len(),
    {
        self.program.instructions.len()
    }

    /// The value of a register, copied; a container is copied as its handle.
    pub fn get_register(&self, index: usize) -> (r: Result<VmValue, VmError>)
        ensures
            value_result(r) == self@.register(index),
    {
        if index < self.registers.len() {
            Ok(self.registers[index].clone())
        } else {
            Err(VmError::RegisterOutOfBounds(index))
        }
    }

    /// Puts a value into a register.
    pub fn set_register(&mut self, index: usize, value: VmValue) -> (r: Result<(), VmError>)
        ensures
            final(self).program == old(self).program,
            outcome(final(self)@, r) == old(self)@.set_register(index, value@),
    {
        if index < self.registers.len() {
            self.registers[index] = value;
            assert(self@.registers =~= old(self)@.registers.update(index as int, value@));
            Ok(())
        } else {
            Err(VmError::RegisterOutOfBounds(index))
        }
    }

    /// Binds a variable.
    pub fn set_variable(&mut self, name: String, value: VmValue)
        ensures
            final(self).program == old(self).program,
            final(self)@ == old(self)@.set_variable(name@, value@),
    {
        self.variables.insert(name, value);
        assert(self@.variables =~= old(self)@.variables.insert(name@, value@));
    }

    /// The value of a variable, copied.
    pub fn lookup_variable(&self, name: &str) -> (r: Result<VmValue, VmError>)
        ensures
            value_result(r) == self@.lookup(name@),
    {
        match self.variables.get(name) {
            Some(value) => Ok(value.clone()),
            None => Err(VmError::VariableNotFound(String::from_str(name))),
        }
    }

    /// Goes on at an address of the program.
    pub fn jump(&mut self, address: usize) -> (r: Result<(), VmError>)
        ensures
            final(self).program == old(self).program,
            outcome(final(self)@, r) == old(self)@.jump(
                old(self).program.instructions@.len() as usize,
                address,
            ),
    {
        if address >= self.instruction_count() {
            Err(VmError::ProgramCounterOutOfBounds)
        } else {
            self.pc = address;
            Ok(())
        }
    }

    /// Calls the subroutine at an address.
    pub fn call(&mut self, address: usize) -> (r: Result<(), VmError>)
        ensures
            final(self).program == old(self).program,
            outcome(final(self)@, r) == old(self)@.call(
                old(self).program.instructions@.len() as usize,
                address,
            ),
    {
        if address >= self.instruction_count() {
            return Err(VmError::ProgramCounterOutOfBounds);
        }
        self.call_stack.push(Frame::new(self.pc));
        self.pc = address;
        assert(self@.call_stack =~= old(self)@.call_stack.push(old(self).pc));
        Ok(())
    }

    /// Returns to the address that the latest call pushed.
    pub fn call_return(&mut self) -> (r: Result<(), VmError>)
        ensures
            final(self).program == old(self).program,
            outcome(final(self)@, r) == old(self)@.call_return(),
    {
        match self.call_stack.pop() {
            None => Err(VmError::CallStackEmpty),
            Some(frame) => {
                self.pc = frame.return_address;
                assert(self@.call_stack =~= old(self)@.call_stack.drop_last());
                Ok(())
            },
        }
    }

    /// The values of two registers, the first looked at first.
    fn operands(&self, a: usize, b: usize) -> (r: Result<(VmValue, VmValue), VmError>)
        ensures
            match r {
                Ok(pair) => self@.operands(a, b) == Ok::<(Value, Value), crate::error::vm::Fault>(
                    (pair.0@, pair.1@),
                ),
                Err(e) => self@.operands(a, b) == Err::<(Value, Value), crate::error::vm::Fault>(
                    e@,
                ),
            },
    {
        let x = self.get_register(a)?;
        let y = self.get_register(b)?;
        Ok((x, y))
    }

    /// The fault of a binary operation for operands of the wrong types.
    fn binary_mismatch(instruction: &Instruction, a: &VmValue, b: &VmValue) -> (e: VmError)
        ensures
            e@ == (crate::error::vm::Fault::BinaryTypeMismatch {
                opcode_name: instruction.opcode_name(),
                expected: crate::state::number_name(),
                a_actual: a@.kind_name(),
                b_actual: b@.kind_name(),
            }),
    {
        VmError::BinaryTypeMismatch {
            opcode_name: instruction.name(),
            expected: String::from_str("number"),
            a_actual: a.kind_name(),
            b_actual: b.kind_name(),
        }
    }

    /// The fault of a unary operation for an operand that is no number.
    fn operand_mismatch(operand: &VmValue) -> (e: VmError)
        ensures
            e@ == (crate::error::vm::Fault::OperandTypeMismatch {
                expected: crate::state::number_name(),
                actual: operand@.kind_name(),
            }),
    {
        VmError::OperandTypeMismatch {
            expected: String::from_str("number"),
            actual: operand.kind_name(),
        }
    }

    /// Arithmetic on two values, for the instruction that asks for it.
    fn arithmetic(
        &mut self,
        op: ArithOp,
        instruction: &Instruction,
        target: usize,
        a: &VmValue,
        b: &VmValue,
    ) -> (r: Result<(), VmError>)
        ensures
            final(self).program == old(self).program,
            outcome(final(self)@, r) == old(self)@.arithmetic(
                op,
                instruction.opcode_name(),
                target,
                a@,
                b@,
            ),
    {
        match arith(op, a, b) {
            Arith::Done(value) => self.set_register(target, value),
            Arith::Ask(request, narrow) => {
                self.pending = Some(Pending { request, target, narrow });
                Ok(())
            },
            Arith::Mismatch => Err(Self::binary_mismatch(instruction, a, b)),
        }
    }

    /// Arithmetic on two registers.
    fn float_binop(
        &mut self,
        target: usize,
        a: usize,
        b: usize,
        instruction: &Instruction,
        op: ArithOp,
    ) -> (r: Result<(), VmError>)
        ensures
            final(self).program == old(self).program,
            outcome(final(self)@, r) == old(self)@.arith_registers(
                op,
                instruction.opcode_name(),
                target,
                a,
                b,
            ),
    {
        let (x, y) = self.operands(a, b)?;
        self.arithmetic(op, instruction, target, &x, &y)
    }

    /// Arithmetic on an immediate value and a register.
    fn float_binop_immediate(
        &mut self,
        target: usize,
        a: &VmValue,
        b: usize,
        instruction: &Instruction,
        op: ArithOp,
    ) -> (r: Result<(), VmError>)
        ensures
            final(self).program == old(self).program,
            outcome(final(self)@, r) == old(self)@.arith_immediate(
                op,
                instruction.opcode_name(),
                target,
                a@,
                b,
            ),
    {
        let y = self.get_register(b)?;
        self.arithmetic(op, instruction, target, a, &y)
    }

    /// An operation on the bits of two registers.
    fn int_binop(
        &mut self,
        target: usize,
        a: usize,
        b: usize,
        instruction: &Instruction,
        op: BitOp,
    ) -> (r: Result<(), VmError>)
        ensures
            final(self).program == old(self).program,
            outcome(final(self)@, r) == old(self)@.bitwise(
                op,
                instruction.opcode_name(),
                target,
                a,
                b,
            ),
    {
        let (x, y) = self.operands(a, b)?;
        match (&x, &y) {
            (VmValue::Int(i), VmValue::Int(j)) => self.set_register(
                target,
                VmValue::Int(bit_op(op, *i, *j)),
            ),
            _ => Err(Self::binary_mismatch(instruction, &x, &y)),
        }
    }

    /// The complement of the bits of a register.
    fn int_unop(&mut self, target: usize, operand: usize) -> (r: Result<(), VmError>)
        ensures
            final(self).program == old(self).program,
            outcome(final(self)@, r) == old(self)@.bit_not(target, operand),
    {
        let x = self.get_register(operand)?;
        match x {
            VmValue::Int(i) => self.set_register(target, VmValue::Int(!i)),
            _ => Err(Self::operand_mismatch(&x)),
        }
    }

    /// The negation of a register.
    fn float_unop(&mut self, target: usize, operand: usize) -> (r: Result<(), VmError>)
        ensures
            final(self).program == old(self).program,
            outcome(final(self)@, r) == old(self)@.negate(target, operand),
    {
        let x = self.get_register(operand)?;
        match negated(&x) {
            Some(value) => self.set_register(target, value),
            None => Err(Self::operand_mismatch(&x)),
        }
    }

    /// A connective on the truthiness of two values.
    fn logical(&mut self, op: LogicOp, target: usize, a: &VmValue, b: &VmValue) -> (r: Result<
        (),
        VmError,
    >)
        ensures
            final(self).program == old(self).program,
            outcome(final(self)@, r) == old(self)@.logical(op, target, a@, b@),
    {
        let result = match op {
            LogicOp::And => a.is_truthy() && b.is_truthy(),
            LogicOp::Or => a.is_truthy() || b.is_truthy(),
        };
        self.set_register(target, VmValue::Boolean(result))
    }

    /// A connective on the truthiness of two registers.
    fn logical_binop(&mut self, target: usize, a: usize, b: usize, op: LogicOp) -> (r: Result<
        (),
        VmError,
    >)
        ensures
            final(self).program == old(self).program,
            outcome(final(self)@, r) == old(self)@.logical_registers(op, target, a, b),
    {
        let (x, y) = self.operands(a, b)?;
        self.logical(op, target, &x, &y)
    }

    /// A connective on the truthiness of an immediate value and a register.
    fn logical_binop_immediate(&mut self, target: usize, a: &VmValue, b: usize, op: LogicOp) -> (r:
        Result<(), VmError>)
        ensures
            final(self).program == old(self).program,
            outcome(final(self)@, r) == old(self)@.logical_immediate(op, target, a@, b),
    {
        let y = self.get_register(b)?;
        self.logical(op, target, a, &y)
    }

    /// The negation of the truthiness of a register.
    fn logical_unop(&mut self, target: usize, operand: usize) -> (r: Result<(), VmError>)
        ensures
            final(self).program == old(self).program,
            outcome(final(self)@, r) == old(self)@.logical_not(target, operand),
    {
        let x = self.get_register(operand)?;
        self.set_register(target, VmValue::Boolean(!x.is_truthy()))
    }

    /// The first of two registers unless it holds `Null`, else the second.
    fn null_coalesce(&mut self, target: usize, a: usize, b: usize) -> (r: Result<(), VmError>)
        ensures
            final(self).program == old(self).program,
            outcome(final(self)@, r) == old(self)@.null_coalesce(target, a, b),
    {
        let (x, y) = self.operands(a, b)?;
        match x {
            VmValue::Null => self.set_register(target, y),
            _ => self.set_register(target, x),
        }
    }

    /// Whether a relation holds between two registers, as a boolean in the target.
    fn comparison_binop(&mut self, target: usize, a: usize, b: usize, relation: Relation) -> (r:
        Result<(), VmError>)
        ensures
            final(self).program == old(self).program,
            outcome(final(self)@, r) == old(self)@.comparison(relation, target, a, b),
    {
        let (x, y) = self.operands(a, b)?;
        self.set_register(target, VmValue::Boolean(x.relates(relation, &y)))
    }

    /// A jump that is taken where a relation holds between two registers.
    fn jump_related(&mut self, relation: Relation, a: usize, b: usize, address: usize) -> (r:
        Result<(), VmError>)
        ensures
            final(self).program == old(self).program,
            outcome(final(self)@, r) == old(self)@.jump_related(
                old(self).program.instructions@.len() as usize,
                relation,
                a,
                b,
                address,
            ),
    {
        let (x, y) = self.operands(a, b)?;
        if x.relates(relation, &y) {
            self.jump(address)
        } else {
            Ok(())
        }
    }

    /// A jump that is taken where the truthiness of a register is as wanted.
    fn jump_truthy(&mut self, wanted: bool, source: usize, address: usize) -> (r: Result<
        (),
        VmError,
    >)
        ensures
            final(self).program == old(self).program,
            outcome(final(self)@, r) == old(self)@.jump_truthy(
                old(self).program.instructions@.len() as usize,
                wanted,
                source,
                address,
            ),
    {
        let x = self.get_register(source)?;
        if x.is_truthy() == wanted {
            self.jump(address)
        } else {
            Ok(())
        }
    }

    /// Adds `amount`, which is 1 or -1, to the integer variable `name`.
    fn incrementor(&mut self, target: Option<usize>, name: &String, returns_old: bool, amount: i8) -> (r:
        Result<(), VmError>)
        requires
            amount == 1 || amount == -1,
        ensures
            final(self).program == old(self).program,
            outcome(final(self)@, r) == old(self)@.incrementor(
                target,
                name@,
                returns_old,
                amount as int,
            ),
    {
        let value = self.lookup_variable(name.as_str())?;
        match value {
            VmValue::Int(n) => {
                let sum: i64 = n as i64 + amount as i64;
                let wrapped: i32 = if sum > 2147483647 {
                    (sum - 0x1_0000_0000) as i32
                } else if sum < -2147483648 {
                    (sum + 0x1_0000_0000) as i32
                } else {
                    sum as i32
                };
                self.set_variable(name.clone(), VmValue::Int(wrapped));
                match target {
                    Some(register) => self.set_register(
                        register,
                        if returns_old {
                            VmValue::Int(n)
                        } else {
                            VmValue::Int(wrapped)
                        },
                    ),
                    None => Ok(()),
                }
            },
            _ => Err(Self::operand_mismatch(&value)),
        }
    }

    /// Reads `object[key]` into the target.
    fn index(&mut self, target: usize, object: usize, key: &VmValue) -> (r: Result<(), VmError>)
        ensures
            final(self).program == old(self).program,
            outcome(final(self)@, r) == old(self)@.index(target, object, key@),
    {
        let container = self.get_register(object)?;
        let value = read_index(&self.heap, &container, key)?;
        self.set_register(target, value)
    }

    /// Reads `object[index]` into the target, the key in a register.
    fn index_rc(&mut self, target: usize, object: usize, index: usize) -> (r: Result<(), VmError>)
        ensures
            final(self).program == old(self).program,
            outcome(final(self)@, r) == old(self)@.index_register(target, object, index),
    {
        let key = self.get_register(index)?;
        self.index(target, object, &key)
    }

    /// Reads `object[position]` into the target.
    fn index_known(&mut self, target: usize, object: usize, position: usize) -> (r: Result<
        (),
        VmError,
    >)
        ensures
            final(self).program == old(self).program,
            outcome(final(self)@, r) == old(self)@.index_known(target, object, position),
    {
        let container = self.get_register(object)?;
        let value = read_position(&self.heap, &container, position);
        self.set_register(target, value)
    }

    /// Writes a value to `object[key]`.
    fn write(&mut self, object: usize, key: &VmValue, value: VmValue) -> (r: Result<(), VmError>)
        ensures
            final(self).program == old(self).program,
            outcome(final(self)@, r) == old(self)@.write(object, key@, value@),
    {
        let container = self.get_register(object)?;
        write_index(&mut self.heap, &container, key, value)
    }

    /// Writes a value to `object[position]`.
    fn write_known(&mut self, object: usize, position: usize, value: VmValue) -> (r: Result<
        (),
        VmError,
    >)
        ensures
            final(self).program == old(self).program,
            outcome(final(self)@, r) == old(self)@.write_known(object, position, value@),
    {
        let container = self.get_register(object)?;
        write_position(&mut self.heap, &container, position, value);
        Ok(())
    }

    /// `object[key] = source`
    fn new_index(&mut self, object: usize, key: &VmValue, source: usize) -> (r: Result<(), VmError>)
        ensures
            final(self).program == old(self).program,
            outcome(final(self)@, r) == old(self)@.new_index(object, key@, source),
    {
        let value = self.get_register(source)?;
        self.write(object, key, value)
    }

    /// `object[index] = source`, the key in a register.
    fn new_index_rc(&mut self, object: usize, index: usize, source: usize) -> (r: Result<
        (),
        VmError,
    >)
        ensures
            final(self).program == old(self).program,
            outcome(final(self)@, r) == old(self)@.new_index_register(object, index, source),
    {
        let key = self.get_register(index)?;
        self.new_index(object, &key, source)
    }

    /// `object[position] = source`
    fn new_index_known(&mut self, object: usize, position: usize, source: usize) -> (r: Result<
        (),
        VmError,
    >)
        ensures
            final(self).program == old(self).program,
            outcome(final(self)@, r) == old(self)@.new_index_known(object, position, source),
    {
        let value = self.get_register(source)?;
        self.write_known(object, position, value)
    }

    /// `object[index] = Null`, the key in a register.
    fn delete_index_rc(&mut self, object: usize, index: usize) -> (r: Result<(), VmError>)
        ensures
            final(self).program == old(self).program,
            outcome(final(self)@, r) == old(self)@.delete_index_register(object, index),
    {
        let key = self.get_register(index)?;
        self.write(object, &key, VmValue::Null)
    }

    /// Appends a value to the array in the target.
    fn array_push(&mut self, target: usize, value: VmValue) -> (r: Result<(), VmError>)
        ensures
            final(self).program == old(self).program,
            outcome(final(self)@, r) == old(self)@.array_push(target, value@),
    {
        let container = self.get_register(target)?;
        match container {
            VmValue::DynamicArray(array) => {
                array.push(&mut self.heap, value);
                Ok(())
            },
            _ => Err(
                VmError::OperandTypeMismatch {
                    expected: String::from_str("Array"),
                    actual: container.kind_name(),
                },
            ),
        }
    }

    /// Appends the value of a register to the array in the target.
    fn array_push_rc(&mut self, target: usize, source: usize) -> (r: Result<(), VmError>)
        ensures
            final(self).program == old(self).program,
            outcome(final(self)@, r) == old(self)@.array_push_register(target, source),
    {
        let value = self.get_register(source)?;
        self.array_push(target, value)
    }

    /// The length of the array or string in the source, into the target.
    fn length(&mut self, target: usize, source: usize) -> (r: Result<(), VmError>)
        ensures
            final(self).program == old(self).program,
            outcome(final(self)@, r) == old(self)@.length(target, source),
    {
        let container = self.get_register(source)?;
        match container {
            VmValue::DynamicArray(array) => {
                let n = array.len(&self.heap);
                self.set_register(target, VmValue::Int(#[verifier::truncate] (n as i32)))
            },
            VmValue::String(s) => {
                let n = s.as_str().len();
                self.set_register(target, VmValue::Int(#[verifier::truncate] (n as i32)))
            },
            _ => Ok(()),
        }
    }

    /// Puts a new, empty object into the target.
    fn new_object(&mut self, target: usize) -> (r: Result<(), VmError>)
        ensures
            final(self).program == old(self).program,
            outcome(final(self)@, r) == old(self)@.new_object(target),
    {
        let value = Object::new_vm_value(&mut self.heap);
        self.set_register(target, value)
    }

    /// Puts a new, empty array into the target.
    fn new_array(&mut self, target: usize) -> (r: Result<(), VmError>)
        ensures
            final(self).program == old(self).program,
            outcome(final(self)@, r) == old(self)@.new_array(target),
    {
        let value = DynamicArray::new_vm_value(&mut self.heap);
        self.set_register(target, value)
    }

    /// Binds a variable to the value of a register.
    fn store(&mut self, source: usize, name: &String) -> (r: Result<(), VmError>)
        ensures
            final(self).program == old(self).program,
            outcome(final(self)@, r) == old(self)@.store(source, name@),
    {
        let value = self.get_register(source)?;
        self.set_variable(name.clone(), value);
        Ok(())
    }

    /// Puts the value of a variable into a register.
    fn load(&mut self, target: usize, name: &String) -> (r: Result<(), VmError>)
        ensures
            final(self).program == old(self).program,
            outcome(final(self)@, r) == old(self)@.load(target, name@),
    {
        let value = self.lookup_variable(name.as_str())?;
        self.set_register(target, value)
    }

    /// Prints a value: its line is added to the output.
    fn print_value(&mut self, value: &VmValue)
        ensures
            final(self).program == old(self).program,
            final(self)@ == old(self)@.print(value@),
    {
        let line = print_line(&self.heap, value);
        self.output.push(line);
        assert(self@.output =~= old(self)@.output.push(
            crate::display::spec_print_line(old(self)@.heap, value@),
        ));
    }

    /// Prints the value of a register.
    fn print_register(&mut self, source: usize) -> (r: Result<(), VmError>)
        ensures
            final(self).program == old(self).program,
            outcome(final(self)@, r) == old(self)@.print_register(source),
    {
        let value = self.get_register(source)?;
        self.print_value(&value);
        Ok(())
    }

    /// Executes an instruction; the program counter already stands behind it.
    pub fn execute_instruction(&mut self, instruction: &Instruction) -> (r: Result<(), VmError>)
        ensures
            final(self).program == old(self).program,
            outcome(final(self)@, r) == execute(
                old(self)@,
                old(self).program.instructions@.len() as usize,
                *instruction,
            ),
    {
        reveal(execute);
        match instruction {
            Instruction::LOADV { target, value } => self.set_register(*target, value.clone()),
            Instruction::ADD { target, a, b } => self.float_binop(*target, *a, *b, instruction, ArithOp::Add),
            Instruction::SUB { target, a, b } => self.float_binop(*target, *a, *b, instruction, ArithOp::Sub),
            Instruction::MUL { target, a, b } => self.float_binop(*target, *a, *b, instruction, ArithOp::Mul),
            Instruction::DIV { target, a, b } => self.float_binop(*target, *a, *b, instruction, ArithOp::Div),
            Instruction::IDIV { target, a, b } => self.float_binop(*target, *a, *b, instruction, ArithOp::FloorDiv),
            Instruction::POW { target, a, b } => self.float_binop(*target, *a, *b, instruction, ArithOp::Pow),
            Instruction::MOD { target, a, b } => self.float_binop(*target, *a, *b, instruction, ArithOp::Rem),
            Instruction::ADDK { target, a_value, b } => self.float_binop_immediate(
                *target,
                a_value,
                *b,
                instruction,
                ArithOp::Add,
            ),
            Instruction::SUBK { target, a_value, b } => self.float_binop_immediate(
                *target,
                a_value,
                *b,
                instruction,
                ArithOp::Sub,
            ),
            Instruction::MULK { target, a_value, b } => self.float_binop_immediate(
                *target,
                a_value,
                *b,
                instruction,
                ArithOp::Mul,
            ),
            Instruction::DIVK { target, a_value, b } => self.float_binop_immediate(
                *target,
                a_value,
                *b,
                instruction,
                ArithOp::Div,
            ),
            Instruction::IDIVK { target, a_value, b } => self.float_binop_immediate(
                *target,
                a_value,
                *b,
                instruction,
                ArithOp::FloorDiv,
            ),
            Instruction::POWK { target, a_value, b } => self.float_binop_immediate(
                *target,
                a_value,
                *b,
                instruction,
                ArithOp::Pow,
            ),
            Instruction::MODK { target, a_value, b } => self.float_binop_immediate(
                *target,
                a_value,
                *b,
                instruction,
                ArithOp::Rem,
            ),
            Instruction::BXOR { target, a, b } => self.int_binop(*target, *a, *b, instruction, BitOp::Xor),
            Instruction::BAND { target, a, b } => self.int_binop(*target, *a, *b, instruction, BitOp::And),
            Instruction::BOR { target, a, b } => self.int_binop(*target, *a, *b, instruction, BitOp::Or),
            Instruction::BLSH { target, a, b } => self.int_binop(*target, *a, *b, instruction, BitOp::ShiftLeft),
            Instruction::BRSH { target, a, b } => self.int_binop(*target, *a, *b, instruction, BitOp::ShiftRight),
            Instruction::BARSH { target, a, b } => self.int_binop(*target, *a, *b, instruction, BitOp::ShiftRightArithmetic),
            Instruction::BNOT { target, operand } => self.int_unop(*target, *operand),
            Instruction::NEGATE { target, operand } => self.float_unop(*target, *operand),
            Instruction::AND { target, a, b } => self.logical_binop(*target, *a, *b, LogicOp::And),
            Instruction::OR { target, a, b } => self.logical_binop(*target, *a, *b, LogicOp::Or),
            Instruction::ANDK { target, a_value, b } => self.logical_binop_immediate(*target, a_value, *b, LogicOp::And),
            Instruction::ORK { target, a_value, b } => self.logical_binop_immediate(*target, a_value, *b, LogicOp::Or),
            Instruction::NULL_COALESCE { target, a, b } => self.null_coalesce(*target, *a, *b),
            Instruction::EQ { target, a, b } => self.comparison_binop(*target, *a, *b, Relation::Equal),
            Instruction::NEQ { target, a, b } => self.comparison_binop(*target, *a, *b, Relation::NotEqual),
            Instruction::LT { target, a, b } => self.comparison_binop(*target, *a, *b, Relation::Less),
            Instruction::LTE { target, a, b } => self.comparison_binop(*target, *a, *b, Relation::LessOrEqual),
            Instruction::GT { target, a, b } => self.comparison_binop(*target, *a, *b, Relation::Greater),
            Instruction::GTE { target, a, b } => self.comparison_binop(*target, *a, *b, Relation::GreaterOrEqual),
            Instruction::NOT { target, operand } => self.logical_unop(*target, *operand),
            Instruction::INC { target, name, returns_old } => self.incrementor(*target, name, *returns_old, 1),
            Instruction::DEC { target, name, returns_old } => self.incrementor(*target, name, *returns_old, -1),
            Instruction::INDEX { target, object, index } => self.index_rc(*target, *object, *index),
            Instruction::INDEXN { target, object, index } => self.index_known(*target, *object, *index),
            Instruction::INDEXK { target, object, index } => self.index(*target, *object, index),
            Instruction::STORE_INDEX { source, object, index } => self.new_index_rc(*object, *index, *source),
            Instruction::STORE_INDEXN { source, object, index } => self.new_index_known(*object, *index, *source),
            Instruction::STORE_INDEXK { source, object, index } => self.new_index(*object, index, *source),
            Instruction::DELETE_INDEX { object, index } => self.delete_index_rc(*object, *index),
            Instruction::DELETE_INDEXN { object, index } => self.write_known(*object, *index, VmValue::Null),
            Instruction::DELETE_INDEXK { object, index } => self.write(*object, index, VmValue::Null),
            Instruction::NEW_OBJECT(target) => self.new_object(*target),
            Instruction::NEW_ARRAY(target) => self.new_array(*target),
            Instruction::ARRAY_PUSH { target, source } => self.array_push_rc(*target, *source),
            Instruction::ARRAY_PUSHK { target, value } => self.array_push(*target, value.clone()),
            Instruction::LEN { target, source } => self.length(*target, *source),
            Instruction::JMP(address) => self.jump(*address),
            Instruction::JZ { source, address } => self.jump_truthy(false, *source, *address),
            Instruction::JNZ { source, address } => self.jump_truthy(true, *source, *address),
            Instruction::JLT { a, b, address } => self.jump_related(Relation::Less, *a, *b, *address),
            Instruction::JLTE { a, b, address } => self.jump_related(Relation::LessOrEqual, *a, *b, *address),
            Instruction::JGT { a, b, address } => self.jump_related(Relation::Greater, *a, *b, *address),
            Instruction::JGTE { a, b, address } => self.jump_related(Relation::GreaterOrEqual, *a, *b, *address),
            Instruction::JEQ { a, b, address } => self.jump_related(Relation::Equal, *a, *b, *address),
            Instruction::JNEQ { a, b, address } => self.jump_related(Relation::NotEqual, *a, *b, *address),
            Instruction::STORE { source, name } => self.store(*source, name),
            Instruction::STOREK { name, value } => {
                self.set_variable(name.clone(), value.clone());
                Ok(())
            },
            Instruction::LOAD { target, name } => self.load(*target, name),
            Instruction::CALL(address) => self.call(*address),
            Instruction::RETURN => self.call_return(),
            Instruction::PRINT(source) => self.print_register(*source),
            Instruction::PRINTK(value) => {
                self.print_value(value);
                Ok(())
            },
            Instruction::HALT => {
                self.pc = self.instruction_count();
                Ok(())
            },
        }
    }

    /// Whether the machine has run off the end of its program.
    pub fn is_finished(&self) -> (r: bool)
        ensures
            r == self@.finished(self.program.instructions@.len()),
    {
        self.pc >= self.instruction_count()
    }

    /// One turn: nothing where the machine waits for an answer or has run off the end of the
    /// program; else the instruction under the program counter is fetched, the counter moves
    /// behind it, and the instruction is executed.
    pub fn step(&mut self) -> (r: Result<(), VmError>)
        ensures
            final(self).program == old(self).program,
            outcome(final(self)@, r) == step(old(self).program.instructions@, old(self)@),
    {
        if self.pending.is_some() || self.pc >= self.instruction_count() {
            return Ok(());
        }
        let program: &'a Program = self.program;
        let instruction = &program.instructions[self.pc];
        self.pc += 1;
        self.execute_instruction(instruction)
    }

    /// Runs for at most `limit` turns. The run ends before that at the first fault, which is
    /// returned; where the machine comes to wait for an answer; and where it has run off the
    /// end of the program.
    pub fn run_for(&mut self, limit: u64) -> (r: Result<(), VmError>)
        ensures
            final(self).program == old(self).program,
            outcome(final(self)@, r) == runs(
                old(self).program.instructions@,
                old(self)@,
                limit as nat,
            ),
    {
        let mut turns: u64 = 0;
        while turns < limit && self.pending.is_none() && !self.is_finished()
            invariant
                self.program == old(self).program,
                turns <= limit,
                runs(self.program.instructions@, self@, (limit - turns) as nat) == runs(
                    old(self).program.instructions@,
                    old(self)@,
                    limit as nat,
                ),
            decreases limit - turns,
        {
            match self.step() {
                Err(e) => {
                    return Err(e);
                },
                Ok(_) => {},
            }
            turns += 1;
        }
        Ok(())
    }

    /// Runs the program until it halts or runs off its end, faults, or comes to wait for an
    /// answer; the caller tells these apart by [`Vm::is_finished`] and `pending`. A run that
    /// has not ended after `u64::MAX` turns is broken off there.
    pub fn run(&mut self) -> (r: Result<(), VmError>)
        ensures
            final(self).program == old(self).program,
            outcome(final(self)@, r) == runs(
                old(self).program.instructions@,
                old(self)@,
                u64::MAX as nat,
            ),
    {
        self.run_for(u64::MAX)
    }

    /// Hands the machine the answer to the request that it waits with: the bits of the
    /// double that the requested operation gives. The answer, narrowed as the instruction
    /// has it, goes to the instruction's target. Without a request nothing happens.
    pub fn resume(&mut self, answer: u64) -> (r: Result<(), VmError>)
        ensures
            final(self).program == old(self).program,
            outcome(final(self)@, r) == old(self)@.resume(answer),
    {
        match self.pending {
            None => Ok(()),
            Some(pending) => {
                self.pending = None;
                self.set_register(pending.target, narrowed(pending.narrow, answer))
            },
        }
    }
}

} // verus!
