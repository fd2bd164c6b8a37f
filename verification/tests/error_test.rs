use ryde::error::vm::VmError;

#[test]
fn register_out_of_bounds_message() {
    assert_eq!(VmError::RegisterOutOfBounds(10).to_string(), "Invalid register index: 10");
    assert_eq!(VmError::RegisterOutOfBounds(0).to_string(), "Invalid register index: 0");
    assert_eq!(
        VmError::RegisterOutOfBounds(usize::MAX).to_string(),
        format!("Invalid register index: {}", usize::MAX)
    );
}

#[test]
fn variable_not_found_message() {
    assert_eq!(
        VmError::VariableNotFound("x".to_string()).to_string(),
        "Variable 'x' not found in local scope"
    );
}

#[test]
fn program_counter_message() {
    assert_eq!(VmError::ProgramCounterOutOfBounds.to_string(), "Program counter out of bounds");
}

#[test]
fn call_stack_message() {
    assert_eq!(VmError::CallStackEmpty.to_string(), "Call stack is empty, cannot return");
}

#[test]
fn attempt_to_index_message() {
    assert_eq!(VmError::AttemptToIndex("Int".to_string()).to_string(), "Attempt to index 'Int'");
}

#[test]
fn invalid_index_message() {
    assert_eq!(
        VmError::InvalidIndexType("String".to_string()).to_string(),
        "Invalid index type, got 'String'"
    );
}

#[test]
fn operand_mismatch_message() {
    let error = VmError::OperandTypeMismatch {
        expected: "number".to_string(),
        actual: "Null".to_string(),
    };
    assert_eq!(error.to_string(), "Expected type 'number', got 'Null'");
}

#[test]
fn binary_mismatch_message() {
    let error = VmError::BinaryTypeMismatch {
        opcode_name: "ADD".to_string(),
        expected: "number".to_string(),
        a_actual: "String".to_string(),
        b_actual: "Int".to_string(),
    };
    assert_eq!(
        error.to_string(),
        "Expected type 'number' for operands of 'ADD' operation, got 'String' ADD 'Int'"
    );
}
