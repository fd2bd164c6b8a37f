//! Ahead-of-time compilation of a small subset of the instructions to assembly text.

pub mod state;

use crate::aot::state::{
    instruction_text, line_break, print_text, reg_name, AotState, AotTarget, AotView, POOL_SIZE,
};
use crate::instruction::Instruction;
use crate::serde::Program;
use crate::text::{decimal, i32_text, repeated, usize_text};
use crate::value::{Value, VmValue};
use vstd::prelude::*;
use vstd::string::*;

verus! {

/// The column at which the comment that names the source instruction starts, where the
/// assembly before it is shorter.
pub const COMMENT_WIDTH: usize = 20;

/// Why a program cannot be compiled.
#[derive(Debug)]
pub enum CodegenError {
    /// The instruction, named here, is outside the subset that can be compiled.
    UnsupportedInstruction(String),
    /// An immediate value is no integer.
    UnsupportedImmediate,
    /// The virtual register has no physical register: the pool is exhausted.
    RegisterPoolExhausted(usize),
}

/// The mathematical content of a [`CodegenError`].
pub enum CodegenFault {
    UnsupportedInstruction(Seq<char>),
    UnsupportedImmediate,
    RegisterPoolExhausted(usize),
}

impl View for CodegenError {
    type V = CodegenFault;

    open spec fn view(&self) -> CodegenFault {
        match self {
            CodegenError::UnsupportedInstruction(name) => CodegenFault::UnsupportedInstruction(
                name@,
            ),
            CodegenError::UnsupportedImmediate => CodegenFault::UnsupportedImmediate,
            CodegenError::RegisterPoolExhausted(vreg) => CodegenFault::RegisterPoolExhausted(*vreg),
        }
    }
}

/// How a comment shows the instruction that the assembly beside it was made from: the name
/// of the operation with its operands for the instructions that can be compiled, the name
/// alone for the others.
pub open spec fn listing(ins: Instruction) -> Seq<char> {
    match ins {
        Instruction::LOADV { target, value: VmValue::Int(i) } => "LOADV { target: "@ + decimal(
            target as int,
        ) + ", value: Int("@ + decimal(i as int) + ") }"@,
        Instruction::ADD { target, a, b } => "ADD { target: "@ + decimal(target as int) + ", a: "@
            + decimal(a as int) + ", b: "@ + decimal(b as int) + " }"@,
        Instruction::PRINT(target) => "PRINT("@ + decimal(target as int) + ")"@,
        Instruction::PRINTK(VmValue::Int(i)) => "PRINTK(Int("@ + decimal(i as int) + "))"@,
        _ => ins.opcode_name(),
    }
}

/// The number of spaces between a piece of assembly and its comment.
pub open spec fn padding(written: Seq<char>) -> nat {
    if written.len() >= COMMENT_WIDTH {
        0
    } else {
        (COMMENT_WIDTH - written.len()) as nat
    }
}

/// The state after the comment for an instruction is written behind its assembly, and the
/// line is ended.
pub open spec fn commented(s: AotView, written: Seq<char>, ins: Instruction) -> AotView {
    s.wrote(repeated(" "@, padding(written)) + "; "@ + listing(ins)).wrote(line_break(s.indent))
}

/// The assembly that loads an integer into the register of a virtual register.
pub open spec fn load_text(vreg: usize, i: i32) -> Seq<char> {
    instruction_text("mov"@, seq![reg_name(vreg), decimal(i as int)])
}

/// The state after an instruction is compiled, or why it cannot be. Loading an integer and
/// adding two registers give one line with a comment; printing a register gives the call of
/// the print routine; printing an integer takes the lowest free register, loads it and
/// prints it, under a comment line of its own; halting gives nothing. Every register must
/// be of the pool, and nothing else can be compiled.
pub open spec fn emit(s: AotView, ins: Instruction) -> Result<AotView, CodegenFault> {
    match ins {
        Instruction::LOADV { target, value } => match value@ {
            Value::Int(i) => if target < POOL_SIZE {
                Ok(commented(s.allocated(target).wrote(load_text(target, i)), load_text(target, i), ins))
            } else {
                Err(CodegenFault::RegisterPoolExhausted(target))
            },
            _ => Err(CodegenFault::UnsupportedImmediate),
        },
        Instruction::ADD { target, a, b } => if a >= POOL_SIZE {
            Err(CodegenFault::RegisterPoolExhausted(a))
        } else if b >= POOL_SIZE {
            Err(CodegenFault::RegisterPoolExhausted(b))
        } else {
            let written = instruction_text("add"@, seq![reg_name(a), reg_name(b)]);
            Ok(commented(s.wrote(written), written, ins))
        },
        Instruction::PRINT(target) => if target < POOL_SIZE {
            Ok(s.freed(target).wrote(print_text(s.target, s.indent, target)))
        } else {
            Err(CodegenFault::RegisterPoolExhausted(target))
        },
        Instruction::PRINTK(value) => match value@ {
            Value::Int(i) => if s.closest_free_vreg < POOL_SIZE {
                let vreg = s.closest_free_vreg;
                Ok(
                    s.wrote("; "@ + listing(ins)).wrote(line_break(s.indent)).allocated(vreg).wrote(
                        load_text(vreg, i),
                    ).wrote(line_break(s.indent)).freed(vreg).wrote(
                        print_text(s.target, s.indent, vreg),
                    ),
                )
            } else {
                Err(CodegenFault::RegisterPoolExhausted(s.closest_free_vreg))
            },
            _ => Err(CodegenFault::UnsupportedImmediate),
        },
        Instruction::HALT => Ok(s),
        _ => Err(CodegenFault::UnsupportedInstruction(ins.opcode_name())),
    }
}

/// The state after the first `n` instructions are compiled in turn, or why the first of
/// them that cannot be compiled cannot be.
pub open spec fn emit_all(s: AotView, instructions: Seq<Instruction>, n: int) -> Result<
    AotView,
    CodegenFault,
>
    decreases n,
{
    if n <= 0 {
        Ok(s)
    } else {
        match emit_all(s, instructions, n - 1) {
            Err(fault) => Err(fault),
            Ok(before) => emit(before, instructions[n - 1]),
        }
    }
}

/// The state in which the first instruction is compiled: the header is written, and the
/// text is indented by one level.
pub open spec fn start(target: AotTarget) -> AotView {
    AotView {
        target,
        indent: 1,
        closest_free_vreg: 0,
        print_used: false,
        assembly: crate::aot::state::header_text(0),
    }
}

/// The assembly of a program: the header, then what its instructions compile to.
pub open spec fn compiled(instructions: Seq<Instruction>) -> Result<Seq<char>, CodegenFault> {
    match emit_all(start(AotTarget::Win64), instructions, instructions.len() as int) {
        Ok(s) => Ok(s.assembly),
        Err(fault) => Err(fault),
    }
}

/// How a comment shows an instruction.
pub fn listing_text(instruction: &Instruction) -> (r: String)
    ensures
        r@ == listing(*instruction),
{
    match instruction {
        Instruction::LOADV { target, value: VmValue::Int(i) } => {
            String::from_str("LOADV { target: ").concat(usize_text(*target).as_str()).concat(
                ", value: Int(",
            ).concat(i32_text(*i).as_str()).concat(") }")
        },
        Instruction::ADD { target, a, b } => {
            String::from_str("ADD { target: ").concat(usize_text(*target).as_str()).concat(
                ", a: ",
            ).concat(usize_text(*a).as_str()).concat(", b: ").concat(
                usize_text(*b).as_str(),
            ).concat(" }")
        },
        Instruction::PRINT(target) => {
            String::from_str("PRINT(").concat(usize_text(*target).as_str()).concat(")")
        },
        Instruction::PRINTK(VmValue::Int(i)) => {
            String::from_str("PRINTK(Int(").concat(i32_text(*i).as_str()).concat("))")
        },
        _ => instruction.name(),
    }
}

/// The decimal text of an immediate integer; `None` for any other value.
pub fn get_immediate(value: &VmValue) -> (r: Option<String>)
    ensures
        match r {
            Some(text) => value@ matches Value::Int(i) && text@ == decimal(i as int),
            None => !(value@ is Int),
        },
{
    match value {
        VmValue::Int(i) => Some(i32_text(*i)),
        _ => None,
    }
}

/// Writes the comment for an instruction behind its assembly and ends the line.
fn write_comment(state: &mut AotState, written: &String, instruction: &Instruction)
    ensures
        final(state)@ == commented(old(state)@, written@, *instruction),
{
    let length = written.as_str().unicode_len();
    let mut text = String::new();
    let mut i: usize = length;
    assert(text@ =~= repeated(" "@, 0));
    while i < COMMENT_WIDTH
        invariant
            length <= i || length >= COMMENT_WIDTH,
            i <= COMMENT_WIDTH || length >= COMMENT_WIDTH,
            length == written@.len(),
            length < COMMENT_WIDTH ==> text@ == repeated(" "@, (i - length) as nat),
            length >= COMMENT_WIDTH ==> text@ == repeated(" "@, 0) && i == length,
        decreases COMMENT_WIDTH - i,
    {
        text.append(" ");
        i += 1;
        assert(text@ =~= repeated(" "@, (i - length) as nat));
    }
    text.append("; ");
    text.append(listing_text(instruction).as_str());
    state.write(text);
    state.write_line();
}

/// Compiles one instruction. Where it cannot be compiled, nothing is written.
pub fn emit_instruction(state: &mut AotState, instruction: &Instruction) -> (r: Result<
    (),
    CodegenError,
>)
    ensures
        match r {
            Ok(_) => emit(old(state)@, *instruction) == Ok::<AotView, CodegenFault>(
                final(state)@,
            ),
            Err(e) => emit(old(state)@, *instruction) == Err::<AotView, CodegenFault>(e@)
                && final(state)@ == old(state)@,
        },
{
    match instruction {
        Instruction::LOADV { target, value } => {
            match get_immediate(value) {
                None => Err(CodegenError::UnsupportedImmediate),
                Some(immediate) => {
                    if *target >= POOL_SIZE {
                        return Err(CodegenError::RegisterPoolExhausted(*target));
                    }
                    let written = state.write_loadv(*target, immediate);
                    write_comment(state, &written, instruction);
                    Ok(())
                },
            }
        },
        Instruction::ADD { target: _, a, b } => {
            if *a >= POOL_SIZE {
                return Err(CodegenError::RegisterPoolExhausted(*a));
            }
            if *b >= POOL_SIZE {
                return Err(CodegenError::RegisterPoolExhausted(*b));
            }
            let written = state.write_add(*a, *b);
            write_comment(state, &written, instruction);
            Ok(())
        },
        Instruction::PRINT(target) => {
            if *target >= POOL_SIZE {
                return Err(CodegenError::RegisterPoolExhausted(*target));
            }
            let _ = state.write_print(*target);
            Ok(())
        },
        Instruction::PRINTK(value) => {
            match get_immediate(value) {
                None => Err(CodegenError::UnsupportedImmediate),
                Some(immediate) => {
                    if state.closest_free_vreg >= POOL_SIZE {
                        return Err(CodegenError::RegisterPoolExhausted(state.closest_free_vreg));
                    }
                    state.write(String::from_str("; ").concat(listing_text(instruction).as_str()));
                    state.write_line();
                    let vreg = state.alloc_new_vreg();
                    let _ = state.write_loadv(vreg, immediate);
                    state.write_line();
                    let _ = state.write_print(vreg);
                    Ok(())
                },
            }
        },
        Instruction::HALT => Ok(()),
        _ => Err(CodegenError::UnsupportedInstruction(instruction.name())),
    }
}

/// Compiles a program to assembly text, or says why it cannot be compiled.
pub fn compile(program: &Program) -> (r: Result<String, CodegenError>)
    ensures
        match r {
            Ok(text) => compiled(program.instructions@) == Ok::<Seq<char>, CodegenFault>(text@),
            Err(e) => compiled(program.instructions@) == Err::<Seq<char>, CodegenFault>(e@),
        },
{
    let mut state = AotState::new(AotTarget::Win64);
    state.write_header();
    assert(state@.assembly =~= crate::aot::state::header_text(0));
    let mut i: usize = 0;
    while i < program.instructions.len()
        invariant
            i <= program.instructions@.len(),
            emit_all(start(AotTarget::Win64), program.instructions@, i as int) == Ok::<
                AotView,
                CodegenFault,
            >(state@),
        decreases program.instructions@.len() - i,
    {
        match emit_instruction(&mut state, &program.instructions[i]) {
            Err(e) => {
                assert(emit_all(
                    start(AotTarget::Win64),
                    program.instructions@,
                    i + 1,
                ) == Err::<AotView, CodegenFault>(e@));
                proof {
                    lemma_emit_all_fails(
                        start(AotTarget::Win64),
                        program.instructions@,
                        i + 1,
                        program.instructions@.len() as int,
                    );
                }
                return Err(e);
            },
            Ok(_) => {},
        }
        i += 1;
    }
    Ok(state.assembly)
}

/// Once an instruction cannot be compiled, no longer prefix of the program can be: the fault
/// stays the same.
pub proof fn lemma_emit_all_fails(s: AotView, instructions: Seq<Instruction>, n: int, m: int)
    requires
        n <= m,
        emit_all(s, instructions, n) is Err,
    ensures
        emit_all(s, instructions, m) == emit_all(s, instructions, n),
    decreases m - n,
{
    if n < m {
        lemma_emit_all_fails(s, instructions, n, m - 1);
    }
}

} // verus!
