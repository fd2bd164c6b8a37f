use ryde::aot::state::{vreg_to_reg, AotState, AotTarget, POOL_SIZE};
use ryde::aot::{compile, emit_instruction, get_immediate, listing_text, CodegenError};
use ryde::instruction::Instruction;
use ryde::serde::Program;
use ryde::value::VmValue;

const HEADER: &str =
    "global main\nextern printf\n\nsection .data\nfmt db \"%d\", 10, 0\n\nsection .text\nmain:\n  ";

const PRINT_RAX: &str =
    "sub rsp, 40\n  lea rcx, [rel fmt]\n  mov rdx, rax\n  call printf\n  add rsp, 40\n  ";

fn loadv(target: usize, value: i32) -> Instruction {
    Instruction::LOADV { target, value: VmValue::Int(value) }
}

#[test]
fn the_target_is_win64() {
    assert!(AotTarget::Win64.is_win64());
}

#[test]
fn physical_registers_of_the_pool() {
    assert_eq!(POOL_SIZE, 3);
    assert_eq!(vreg_to_reg(0), "rax");
    assert_eq!(vreg_to_reg(1), "rcx");
    assert_eq!(vreg_to_reg(2), "rdx");
}

#[test]
fn a_new_state_is_empty() {
    let state = AotState::new(AotTarget::Win64);
    assert_eq!(state.assembly, "");
    assert_eq!(state.indent, 0);
    assert_eq!(state.closest_free_vreg, 0);
    assert!(!state.print_used);
}

#[test]
fn allocation_bumps_the_mark() {
    let mut state = AotState::new(AotTarget::Win64);
    assert_eq!(state.alloc_new_vreg(), 0);
    assert_eq!(state.alloc_new_vreg(), 1);
    assert_eq!(state.closest_free_vreg, 2);
    assert_eq!(state.alloc_vreg(0), 0);
    assert_eq!(state.closest_free_vreg, 1);
    assert_eq!(state.alloc_reg(2), "rdx");
    assert_eq!(state.closest_free_vreg, 3);
}

#[test]
fn only_the_latest_registers_can_be_freed() {
    let mut state = AotState::new(AotTarget::Win64);
    state.alloc_new_vreg();
    state.alloc_new_vreg();
    // above the mark: nothing happens
    state.free_vreg(5);
    assert_eq!(state.closest_free_vreg, 2);
    // at the mark: nothing changes
    state.free_vreg(2);
    assert_eq!(state.closest_free_vreg, 2);
    // below the mark: the mark comes down
    state.free_vreg(1);
    assert_eq!(state.closest_free_vreg, 1);
    state.free_vreg(0);
    assert_eq!(state.closest_free_vreg, 0);
}

#[test]
fn writing_appends_text() {
    let mut state = AotState::new(AotTarget::Win64);
    state.write("a".to_string());
    state.write_borrowed("b");
    assert_eq!(state.write_unit_instruction("ret"), "ret");
    assert_eq!(state.assembly, "abret");
}

#[test]
fn a_line_break_indents_the_next_line() {
    let mut state = AotState::new(AotTarget::Win64);
    state.write_line();
    state.push_indent();
    state.push_indent();
    state.write_line();
    state.pop_indent();
    state.write_line();
    assert_eq!(state.assembly, "\n\n    \n  ");
    assert_eq!(state.indent, 1);
}

#[test]
fn an_instruction_has_its_operands_joined() {
    let mut state = AotState::new(AotTarget::Win64);
    let written =
        state.write_instruction("mov", vec!["rax".to_string(), "rbx".to_string(), "1".to_string()]);
    assert_eq!(written, "mov rax, rbx, 1");
    let single = state.write_instruction("call", vec!["printf".to_string()]);
    assert_eq!(single, "call printf");
    let none = state.write_instruction("nop", vec![]);
    assert_eq!(none, "nop ");
    assert_eq!(state.assembly, "mov rax, rbx, 1call printfnop ");
}

#[test]
fn a_load_takes_its_register() {
    let mut state = AotState::new(AotTarget::Win64);
    assert_eq!(state.write_loadv(1, "42".to_string()), "mov rcx, 42");
    assert_eq!(state.closest_free_vreg, 2);
    assert_eq!(state.assembly, "mov rcx, 42");
}

#[test]
fn an_addition_names_both_registers() {
    let mut state = AotState::new(AotTarget::Win64);
    assert_eq!(state.write_add(0, 2), "add rax, rdx");
    assert_eq!(state.closest_free_vreg, 0);
}

#[test]
fn a_print_reserves_shadow_space_and_frees_the_register() {
    let mut state = AotState::new(AotTarget::Win64);
    state.alloc_new_vreg();
    state.push_indent();
    let written = state.write_print(0);
    assert_eq!(written, PRINT_RAX);
    assert_eq!(state.assembly, PRINT_RAX);
    assert_eq!(state.closest_free_vreg, 0);
}

#[test]
fn the_header_ends_indented_behind_the_entry_label() {
    let mut state = AotState::new(AotTarget::Win64);
    state.write_header();
    assert_eq!(state.assembly, HEADER);
    assert_eq!(state.indent, 1);
}

#[test]
fn the_header_can_be_written_at_any_level() {
    let mut state = AotState::new(AotTarget::Win64);
    state.push_indent();
    state.write_header();
    assert_eq!(
        state.assembly,
        "global main\n  extern printf\n  \n  section .data\n  fmt db \"%d\", 10, 0\n  \n  section .text\n  main:\n    "
    );
    assert_eq!(state.indent, 2);
}

#[test]
fn an_empty_program_is_its_header() {
    let program = Program::from_instructions(vec![]);
    assert_eq!(compile(&program).unwrap(), HEADER);
    let halting = Program::from_instructions(vec![Instruction::HALT]);
    assert_eq!(compile(&halting).unwrap(), HEADER);
}

#[test]
fn a_program_that_adds_and_prints() {
    let program = Program::from_instructions(vec![
        loadv(0, 5),
        loadv(1, 10),
        Instruction::ADD { target: 0, a: 0, b: 1 },
        Instruction::PRINT(0),
        Instruction::HALT,
    ]);
    let expected = format!(
        "{}{}{}{}{}",
        HEADER,
        "mov rax, 5          ; LOADV { target: 0, value: Int(5) }\n  ",
        "mov rcx, 10         ; LOADV { target: 1, value: Int(10) }\n  ",
        "add rax, rcx        ; ADD { target: 0, a: 0, b: 1 }\n  ",
        PRINT_RAX
    );
    assert_eq!(compile(&program).unwrap(), expected);
}

#[test]
fn a_long_line_gets_its_comment_without_padding() {
    let mut state = AotState::new(AotTarget::Win64);
    emit_instruction(&mut state, &loadv(0, -1234567890)).unwrap();
    assert_eq!(
        state.assembly,
        "mov rax, -1234567890; LOADV { target: 0, value: Int(-1234567890) }\n"
    );
    let mut longer = AotState::new(AotTarget::Win64);
    emit_instruction(&mut longer, &loadv(0, i32::MIN)).unwrap();
    assert_eq!(
        longer.assembly,
        "mov rax, -2147483648; LOADV { target: 0, value: Int(-2147483648) }\n"
    );
}

#[test]
fn printing_an_immediate_takes_a_scratch_register() {
    let program = Program::from_instructions(vec![loadv(0, 1), Instruction::PRINTK(VmValue::Int(7))]);
    let expected = format!(
        "{}{}{}{}{}",
        HEADER,
        "mov rax, 1          ; LOADV { target: 0, value: Int(1) }\n  ",
        "; PRINTK(Int(7))\n  ",
        "mov rcx, 7\n  ",
        "sub rsp, 40\n  lea rcx, [rel fmt]\n  mov rdx, rcx\n  call printf\n  add rsp, 40\n  "
    );
    assert_eq!(compile(&program).unwrap(), expected);
}

#[test]
fn an_instruction_outside_the_subset_is_refused() {
    let program = Program::from_instructions(vec![
        loadv(0, 1),
        Instruction::SUB { target: 0, a: 0, b: 0 },
        Instruction::HALT,
    ]);
    match compile(&program) {
        Err(CodegenError::UnsupportedInstruction(name)) => assert_eq!(name, "SUB"),
        other => panic!("SUB cannot be compiled, got {:?}", other),
    }
    let mut state = AotState::new(AotTarget::Win64);
    assert!(matches!(
        emit_instruction(&mut state, &Instruction::RETURN),
        Err(CodegenError::UnsupportedInstruction(_))
    ));
    assert_eq!(state.assembly, "");
}

#[test]
fn an_immediate_that_is_no_integer_is_refused() {
    let program = Program::from_instructions(vec![Instruction::LOADV {
        target: 0,
        value: VmValue::Boolean(true),
    }]);
    assert!(matches!(compile(&program), Err(CodegenError::UnsupportedImmediate)));
    let printing = Program::from_instructions(vec![Instruction::PRINTK(VmValue::Null)]);
    assert!(matches!(compile(&printing), Err(CodegenError::UnsupportedImmediate)));
    assert_eq!(get_immediate(&VmValue::Int(-3)), Some("-3".to_string()));
    assert_eq!(get_immediate(&VmValue::Null), None);
}

#[test]
fn a_register_beyond_the_pool_is_refused() {
    let program = Program::from_instructions(vec![loadv(3, 1)]);
    assert!(matches!(compile(&program), Err(CodegenError::RegisterPoolExhausted(3))));
    let adding = Program::from_instructions(vec![Instruction::ADD { target: 0, a: 1, b: 7 }]);
    assert!(matches!(compile(&adding), Err(CodegenError::RegisterPoolExhausted(7))));
    let first = Program::from_instructions(vec![Instruction::ADD { target: 0, a: 9, b: 7 }]);
    assert!(matches!(compile(&first), Err(CodegenError::RegisterPoolExhausted(9))));
    let printing = Program::from_instructions(vec![Instruction::PRINT(4)]);
    assert!(matches!(compile(&printing), Err(CodegenError::RegisterPoolExhausted(4))));
    // all three registers are taken: none is left for the immediate
    let full = Program::from_instructions(vec![loadv(2, 1), Instruction::PRINTK(VmValue::Int(7))]);
    assert!(matches!(compile(&full), Err(CodegenError::RegisterPoolExhausted(3))));
}

#[test]
fn listings_name_the_instruction() {
    assert_eq!(listing_text(&loadv(2, -5)), "LOADV { target: 2, value: Int(-5) }");
    assert_eq!(
        listing_text(&Instruction::ADD { target: 1, a: 2, b: 0 }),
        "ADD { target: 1, a: 2, b: 0 }"
    );
    assert_eq!(listing_text(&Instruction::PRINT(12)), "PRINT(12)");
    assert_eq!(listing_text(&Instruction::PRINTK(VmValue::Int(0))), "PRINTK(Int(0))");
    assert_eq!(listing_text(&Instruction::HALT), "HALT");
    assert_eq!(listing_text(&Instruction::JMP(3)), "JMP");
}
