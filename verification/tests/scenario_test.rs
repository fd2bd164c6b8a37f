use ryde::arith::FloatRequest;
use ryde::array::DynamicArray;
use ryde::error::vm::VmError;
use ryde::heap::Heap;
use ryde::instruction::Instruction;
use ryde::serde::Program;
use ryde::value::VmValue;
use ryde::vm::Vm;

fn answer(request: FloatRequest) -> u64 {
    let result = match request {
        FloatRequest::Add(a, b) => f64::from_bits(a) + f64::from_bits(b),
        FloatRequest::Sub(a, b) => f64::from_bits(a) - f64::from_bits(b),
        FloatRequest::Mul(a, b) => f64::from_bits(a) * f64::from_bits(b),
        FloatRequest::Div(a, b) => f64::from_bits(a) / f64::from_bits(b),
        FloatRequest::FloorDiv(a, b) => f64::floor(f64::from_bits(a) / f64::from_bits(b)),
        FloatRequest::Rem(a, b) => f64::from_bits(a) % f64::from_bits(b),
        FloatRequest::PowInt(a, n) => f64::powi(f64::from_bits(a), n),
        FloatRequest::PowReal(a, b) => f64::powf(f64::from_bits(a), f64::from_bits(b)),
    };
    result.to_bits()
}

fn run_to_end(vm: &mut Vm) -> Result<(), VmError> {
    loop {
        vm.run()?;
        match vm.pending {
            Some(pending) => vm.resume(answer(pending.request))?,
            None => return Ok(()),
        }
    }
}

fn loadv(target: usize, value: VmValue) -> Instruction {
    Instruction::LOADV { target, value }
}

fn float(x: f64) -> VmValue {
    VmValue::Float(x.to_bits())
}

fn text(s: &str) -> VmValue {
    VmValue::String(s.to_string())
}

fn binary(instruction: Instruction, a: VmValue, b: VmValue) -> Result<VmValue, VmError> {
    let program =
        Program::from_instructions(vec![loadv(0, a), loadv(1, b), instruction, Instruction::HALT]);
    let mut vm = Vm::new(&program, 4);
    run_to_end(&mut vm)?;
    Ok(vm.registers[2].clone())
}

#[test]
fn increment_writes_the_variable_and_the_target() {
    let program = Program::from_instructions(vec![
        loadv(0, VmValue::Int(10)),
        Instruction::STORE { source: 0, name: "x".to_string() },
        Instruction::INC { target: Some(1), name: "x".to_string(), returns_old: false },
        Instruction::HALT,
    ]);
    let mut vm = Vm::new(&program, 4);
    vm.run().unwrap();
    assert_eq!(*vm.variables.get("x").unwrap(), VmValue::Int(11));
    assert_eq!(vm.registers[1], VmValue::Int(11));
    // the register that was stored still holds what it held
    assert_eq!(vm.registers[0], VmValue::Int(10));
}

#[test]
fn postfix_increment_returns_the_old_value() {
    let program = Program::from_instructions(vec![
        Instruction::STOREK { name: "x".to_string(), value: VmValue::Int(10) },
        Instruction::INC { target: Some(1), name: "x".to_string(), returns_old: true },
        Instruction::DEC { target: None, name: "x".to_string(), returns_old: false },
        Instruction::DEC { target: Some(2), name: "x".to_string(), returns_old: false },
        Instruction::HALT,
    ]);
    let mut vm = Vm::new(&program, 4);
    vm.run().unwrap();
    assert_eq!(vm.registers[1], VmValue::Int(10));
    assert_eq!(vm.registers[2], VmValue::Int(9));
    assert_eq!(*vm.variables.get("x").unwrap(), VmValue::Int(9));
}

#[test]
fn increment_wraps_around() {
    let program = Program::from_instructions(vec![
        Instruction::STOREK { name: "x".to_string(), value: VmValue::Int(i32::MAX) },
        Instruction::STOREK { name: "y".to_string(), value: VmValue::Int(i32::MIN) },
        Instruction::INC { target: Some(0), name: "x".to_string(), returns_old: false },
        Instruction::DEC { target: Some(1), name: "y".to_string(), returns_old: false },
    ]);
    let mut vm = Vm::new(&program, 2);
    vm.run().unwrap();
    assert_eq!(vm.registers[0], VmValue::Int(i32::MIN));
    assert_eq!(vm.registers[1], VmValue::Int(i32::MAX));
}

#[test]
fn increment_of_what_is_no_integer_is_a_fault() {
    let program = Program::from_instructions(vec![
        Instruction::STOREK { name: "x".to_string(), value: float(1.0) },
        Instruction::INC { target: None, name: "x".to_string(), returns_old: false },
    ]);
    let mut vm = Vm::new(&program, 1);
    match vm.run() {
        Err(VmError::OperandTypeMismatch { expected, actual }) => {
            assert_eq!(expected, "number");
            assert_eq!(actual, "Float");
        }
        other => panic!("only an integer can be incremented, got {:?}", other),
    }
    let missing = Program::from_instructions(vec![Instruction::INC {
        target: None,
        name: "nothing".to_string(),
        returns_old: false,
    }]);
    let mut vm = Vm::new(&missing, 1);
    match vm.run() {
        Err(VmError::VariableNotFound(name)) => assert_eq!(name, "nothing"),
        other => panic!("the variable does not exist, got {:?}", other),
    }
}

#[test]
fn increment_binds_the_variable_before_the_target_faults() {
    let program = Program::from_instructions(vec![
        Instruction::STOREK { name: "x".to_string(), value: VmValue::Int(1) },
        Instruction::INC { target: Some(9), name: "x".to_string(), returns_old: false },
    ]);
    let mut vm = Vm::new(&program, 1);
    assert!(matches!(vm.run(), Err(VmError::RegisterOutOfBounds(9))));
    assert_eq!(*vm.variables.get("x").unwrap(), VmValue::Int(2));
}

#[test]
fn reading_an_array_out_of_range_gives_null() {
    let mut heap = Heap::new();
    let array = DynamicArray::new_vm_value(&mut heap);
    let program = Program::with_heap(
        vec![
            loadv(0, array),
            Instruction::ARRAY_PUSHK { target: 0, value: VmValue::Int(1) },
            Instruction::ARRAY_PUSHK { target: 0, value: VmValue::Int(2) },
            Instruction::INDEXN { target: 1, object: 0, index: 5 },
            Instruction::INDEXN { target: 2, object: 0, index: 1 },
            Instruction::HALT,
        ],
        vec![],
        heap,
    );
    let mut vm = Vm::new(&program, 4);
    vm.run().unwrap();
    assert_eq!(vm.registers[1], VmValue::Null);
    assert_eq!(vm.registers[2], VmValue::Int(2));
    // the program's own heap is not written to
    assert_eq!(DynamicArray { id: 0 }.len(&program.heap), 0);
    assert_eq!(DynamicArray { id: 0 }.len(&vm.heap), 2);
}

#[test]
fn a_deleted_key_reads_null_and_still_counts() {
    let program = Program::from_instructions(vec![
        Instruction::NEW_OBJECT(0),
        loadv(3, VmValue::Int(1)),
        Instruction::STORE_INDEXK { source: 3, object: 0, index: text("k") },
        Instruction::INDEXK { target: 1, object: 0, index: text("k") },
        Instruction::STORE { source: 1, name: "before".to_string() },
        Instruction::DELETE_INDEXK { object: 0, index: text("k") },
        Instruction::INDEXK { target: 1, object: 0, index: text("k") },
        Instruction::LEN { target: 2, source: 0 },
        Instruction::HALT,
    ]);
    let mut vm = Vm::new(&program, 4);
    vm.run().unwrap();
    assert_eq!(*vm.variables.get("before").unwrap(), VmValue::Int(1));
    assert_eq!(vm.registers[1], VmValue::Null);
    // the length instruction leaves its target alone for an object
    assert_eq!(vm.registers[2], VmValue::Null);
    // the key is a tombstone: it still counts in the object's length
    let object = *vm.registers[0].as_object().unwrap();
    assert_eq!(object.len(&vm.heap), 1);
}

#[test]
fn a_stored_array_is_shared_with_the_variable() {
    let program = Program::from_instructions(vec![
        Instruction::NEW_ARRAY(0),
        Instruction::STORE { source: 0, name: "a".to_string() },
        Instruction::LOAD { target: 1, name: "a".to_string() },
        // written through the handle that came from the variable
        Instruction::ARRAY_PUSHK { target: 1, value: VmValue::Int(7) },
        // read through the register that was stored
        Instruction::INDEXN { target: 2, object: 0, index: 0 },
        // and the other way round
        Instruction::ARRAY_PUSHK { target: 0, value: VmValue::Int(8) },
        Instruction::INDEXN { target: 3, object: 1, index: 1 },
        Instruction::HALT,
    ]);
    let mut vm = Vm::new(&program, 4);
    vm.run().unwrap();
    assert_eq!(vm.registers[2], VmValue::Int(7));
    assert_eq!(vm.registers[3], VmValue::Int(8));
    let through_variable = *vm.variables.get("a").unwrap().as_array().unwrap();
    assert_eq!(through_variable.len(&vm.heap), 2);
}

#[test]
fn a_stored_integer_is_a_copy() {
    let program = Program::from_instructions(vec![
        loadv(0, VmValue::Int(1)),
        Instruction::STORE { source: 0, name: "x".to_string() },
        Instruction::INC { target: None, name: "x".to_string(), returns_old: false },
        Instruction::HALT,
    ]);
    let mut vm = Vm::new(&program, 1);
    vm.run().unwrap();
    assert_eq!(vm.registers[0], VmValue::Int(1));
    assert_eq!(*vm.variables.get("x").unwrap(), VmValue::Int(2));
}

#[test]
fn a_call_pushes_the_address_behind_it() {
    let program = Program::from_instructions(vec![
        Instruction::CALL(2),
        Instruction::HALT,
        Instruction::HALT,
    ]);
    let mut vm = Vm::new(&program, 1);
    vm.step().unwrap();
    assert_eq!(vm.pc, 2);
    assert_eq!(vm.call_stack.len(), 1);
    assert_eq!(vm.call_stack[0].return_address, 1);
}

#[test]
fn a_return_goes_on_behind_the_call() {
    let program = Program::from_instructions(vec![
        Instruction::CALL(3),
        loadv(0, VmValue::Int(1)),
        Instruction::HALT,
        Instruction::CALL(5),
        Instruction::RETURN,
        Instruction::RETURN,
    ]);
    let mut vm = Vm::new(&program, 1);
    vm.step().unwrap();
    assert_eq!(vm.pc, 3);
    vm.step().unwrap();
    assert_eq!(vm.pc, 5);
    assert_eq!(vm.call_stack.len(), 2);
    vm.step().unwrap();
    assert_eq!(vm.pc, 4);
    vm.step().unwrap();
    assert_eq!(vm.pc, 1);
    assert_eq!(vm.call_stack.len(), 0);
    vm.run().unwrap();
    assert_eq!(vm.registers[0], VmValue::Int(1));
    assert!(vm.is_finished());
}

#[test]
fn a_jump_out_of_bounds_leaves_the_program_counter() {
    let program = Program::from_instructions(vec![Instruction::JMP(2), Instruction::HALT]);
    let mut vm = Vm::new(&program, 1);
    assert!(matches!(vm.run(), Err(VmError::ProgramCounterOutOfBounds)));
    assert_eq!(vm.pc, 1);
    // the last address of the program can be jumped to
    let fine = Program::from_instructions(vec![Instruction::JMP(1), Instruction::HALT]);
    let mut vm = Vm::new(&fine, 1);
    vm.run().unwrap();
}

#[test]
fn a_call_out_of_bounds_pushes_no_frame() {
    let program = Program::from_instructions(vec![Instruction::CALL(100), Instruction::HALT]);
    let mut vm = Vm::new(&program, 1);
    assert!(matches!(vm.run(), Err(VmError::ProgramCounterOutOfBounds)));
    assert_eq!(vm.pc, 1);
    assert_eq!(vm.call_stack.len(), 0);
}

#[test]
fn floored_division_of_integers() {
    let idiv = || Instruction::IDIV { target: 2, a: 0, b: 1 };
    assert_eq!(binary(idiv(), VmValue::Int(7), VmValue::Int(2)).unwrap(), VmValue::Int(3));
    assert_eq!(binary(idiv(), VmValue::Int(-7), VmValue::Int(2)).unwrap(), VmValue::Int(-4));
    assert_eq!(binary(idiv(), VmValue::Int(7), VmValue::Int(-2)).unwrap(), VmValue::Int(-4));
    assert_eq!(binary(idiv(), VmValue::Int(-7), VmValue::Int(-2)).unwrap(), VmValue::Int(3));
    assert_eq!(binary(idiv(), VmValue::Int(-8), VmValue::Int(2)).unwrap(), VmValue::Int(-4));
    assert_eq!(
        binary(idiv(), VmValue::Int(i32::MIN), VmValue::Int(-1)).unwrap(),
        VmValue::Int(i32::MAX)
    );
}

#[test]
fn floored_division_with_a_float_is_an_integer() {
    let idiv = || Instruction::IDIV { target: 2, a: 0, b: 1 };
    assert_eq!(binary(idiv(), float(7.5), VmValue::Int(2)).unwrap(), VmValue::Int(3));
    assert_eq!(binary(idiv(), VmValue::Int(-7), float(2.0)).unwrap(), VmValue::Int(-4));
    assert_eq!(binary(idiv(), float(1.0), float(0.0)).unwrap(), VmValue::Int(i32::MAX));
}

#[test]
fn division_of_integers_is_an_integer_only_where_exact() {
    let div = || Instruction::DIV { target: 2, a: 0, b: 1 };
    assert_eq!(binary(div(), VmValue::Int(6), VmValue::Int(3)).unwrap(), VmValue::Int(2));
    assert_eq!(binary(div(), VmValue::Int(-6), VmValue::Int(3)).unwrap(), VmValue::Int(-2));
    match binary(div(), VmValue::Int(7), VmValue::Int(2)).unwrap() {
        VmValue::Float(bits) => assert_eq!(f64::from_bits(bits), 3.5),
        other => panic!("7 / 2 is no integer, got {:?}", other),
    }
    match binary(div(), VmValue::Int(1), VmValue::Int(0)).unwrap() {
        VmValue::Float(bits) => assert_eq!(f64::from_bits(bits), f64::INFINITY),
        other => panic!("1 / 0 is infinite, got {:?}", other),
    }
    match binary(div(), VmValue::Int(0), VmValue::Int(0)).unwrap() {
        VmValue::Float(bits) => assert!(f64::from_bits(bits).is_nan()),
        other => panic!("0 / 0 is no number, got {:?}", other),
    }
}

#[test]
fn arithmetic_with_a_float_stays_a_float() {
    let add = Instruction::ADD { target: 2, a: 0, b: 1 };
    match binary(add, VmValue::Int(1), float(2.0)).unwrap() {
        VmValue::Float(bits) => assert_eq!(f64::from_bits(bits), 3.0),
        other => panic!("a float sum is a float, got {:?}", other),
    }
    let modulo = Instruction::MOD { target: 2, a: 0, b: 1 };
    match binary(modulo, float(7.5), VmValue::Int(2)).unwrap() {
        VmValue::Float(bits) => assert_eq!(f64::from_bits(bits), 1.5),
        other => panic!("a float remainder is a float, got {:?}", other),
    }
    let power = Instruction::POW { target: 2, a: 0, b: 1 };
    match binary(power, VmValue::Int(4), float(0.5)).unwrap() {
        VmValue::Float(bits) => assert_eq!(f64::from_bits(bits), 2.0),
        other => panic!("a root is a float, got {:?}", other),
    }
    let negative = Instruction::POW { target: 2, a: 0, b: 1 };
    match binary(negative, VmValue::Int(2), VmValue::Int(-1)).unwrap() {
        VmValue::Float(bits) => assert_eq!(f64::from_bits(bits), 0.5),
        other => panic!("a half is a float, got {:?}", other),
    }
}

#[test]
fn the_machine_waits_for_its_answer() {
    let program = Program::from_instructions(vec![
        loadv(0, VmValue::Int(7)),
        loadv(1, VmValue::Int(2)),
        Instruction::DIV { target: 2, a: 0, b: 1 },
        loadv(3, VmValue::Int(1)),
    ]);
    let mut vm = Vm::new(&program, 4);
    vm.run().unwrap();
    let pending = vm.pending.expect("the division is asked for");
    assert_eq!(pending.request, FloatRequest::Div(7.0f64.to_bits(), 2.0f64.to_bits()));
    assert_eq!(pending.target, 2);
    assert_eq!(vm.pc, 3);
    assert!(!vm.is_finished());
    assert_eq!(vm.registers[2], VmValue::Null);
    // nothing moves while the machine waits
    vm.step().unwrap();
    vm.run().unwrap();
    assert_eq!(vm.pc, 3);
    assert_eq!(vm.registers[3], VmValue::Null);
    vm.resume(3.5f64.to_bits()).unwrap();
    assert!(vm.pending.is_none());
    assert_eq!(vm.registers[2], float(3.5));
    // an answer that nobody asked for changes nothing
    vm.resume(9.0f64.to_bits()).unwrap();
    assert_eq!(vm.registers[2], float(3.5));
    vm.run().unwrap();
    assert_eq!(vm.registers[3], VmValue::Int(1));
    assert!(vm.is_finished());
}

#[test]
fn an_answer_for_a_register_that_does_not_exist_is_a_fault() {
    let program = Program::from_instructions(vec![
        loadv(0, VmValue::Int(7)),
        Instruction::POW { target: 8, a: 0, b: 0 },
    ]);
    let mut vm = Vm::new(&program, 1);
    vm.run().unwrap();
    assert!(vm.pending.is_some());
    assert!(matches!(vm.resume(1.0f64.to_bits()), Err(VmError::RegisterOutOfBounds(8))));
    assert!(vm.pending.is_none());
}

#[test]
fn a_run_can_be_limited() {
    let program = Program::from_instructions(vec![
        Instruction::STOREK { name: "i".to_string(), value: VmValue::Int(0) },
        Instruction::INC { target: None, name: "i".to_string(), returns_old: false },
        Instruction::JMP(1),
    ]);
    let mut vm = Vm::new(&program, 1);
    vm.run_for(0).unwrap();
    assert_eq!(vm.pc, 0);
    vm.run_for(1).unwrap();
    assert_eq!(vm.pc, 1);
    vm.run_for(20).unwrap();
    assert_eq!(*vm.variables.get("i").unwrap(), VmValue::Int(10));
    assert!(!vm.is_finished());
}

#[test]
fn a_fault_leaves_what_was_done_before() {
    let program = Program::from_instructions(vec![
        loadv(0, VmValue::Int(1)),
        Instruction::STORE { source: 0, name: "x".to_string() },
        Instruction::LOAD { target: 1, name: "y".to_string() },
        loadv(0, VmValue::Int(2)),
    ]);
    let mut vm = Vm::new(&program, 2);
    match vm.run() {
        Err(VmError::VariableNotFound(name)) => assert_eq!(name, "y"),
        other => panic!("y is not bound, got {:?}", other),
    }
    assert_eq!(vm.registers[0], VmValue::Int(1));
    assert_eq!(*vm.variables.get("x").unwrap(), VmValue::Int(1));
    assert_eq!(vm.pc, 3);
}

#[test]
fn a_machine_without_instructions_is_finished() {
    let program = Program::from_instructions(vec![]);
    let mut vm = Vm::new(&program, 0);
    assert!(vm.is_finished());
    vm.run().unwrap();
    vm.step().unwrap();
    assert_eq!(vm.pc, 0);
    assert_eq!(vm.registers.len(), 0);
    assert_eq!(vm.instruction_count(), 0);
}

#[test]
fn two_machines_on_one_program_are_independent() {
    let mut heap = Heap::new();
    let array = DynamicArray::new_vm_value(&mut heap);
    let program = Program::with_heap(
        vec![
            loadv(0, array),
            Instruction::ARRAY_PUSHK { target: 0, value: VmValue::Int(1) },
            Instruction::LEN { target: 1, source: 0 },
        ],
        vec![],
        heap,
    );
    let mut first = Vm::new(&program, 2);
    let mut second = Vm::new(&program, 2);
    first.run().unwrap();
    second.run().unwrap();
    assert_eq!(first.registers[1], VmValue::Int(1));
    assert_eq!(second.registers[1], VmValue::Int(1));
}
