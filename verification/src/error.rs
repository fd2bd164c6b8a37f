//! The faults of the machine.

pub mod vm;
