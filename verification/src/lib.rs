//! A small register machine for a dynamically typed language, with its proofs.
//!
//! A [`vm::Vm`] runs a [`serde::Program`]: a sequence of [`instruction::Instruction`]s
//! over a bank of registers and one flat namespace of variables. Values are
//! [`value::VmValue`]s. The primitives are held by value; arrays and objects live in a
//! [`heap::Heap`] and are held as handles, so that a copy of a value shares the container.
//!
//! The library is free of floating point and of input and output. A float is carried as
//! the bit pattern of a double; it is compared, negated and converted here, but where an
//! instruction needs arithmetic on doubles, the machine stops with a
//! [`arith::FloatRequest`] and goes on when [`vm::Vm::resume`] hands it the answer. What
//! a program prints is collected as [`display::Piece`]s for the caller to write out.
//!
//! What the machine does is defined by [`state::step`] on the mathematical state of the
//! machine, and every executable function is proved to do what its contract says of it.
//! [`laws`] holds what follows for the machine as a whole. [`serde`] writes programs as
//! bytes and reads them back; [`aot`] compiles a small subset of the instructions to
//! assembly text; [`hash`] and [`object`] hash and order values without regard to the
//! order in which the entries of an object were written.
#![allow(non_camel_case_types)]

pub mod aot;
pub mod arith;
pub mod array;
pub mod display;
pub mod error;
pub mod float;
pub mod hash;
pub mod heap;
pub mod index;
pub mod instruction;
pub mod laws;
pub mod object;
pub mod order;
pub mod serde;
pub mod state;
pub mod text;
pub mod value;
pub mod vm;
