//! A register-based bytecode machine: a fixed opcode set, a file of 32 signed
//! 32-bit registers and a fetch-decode-execute loop over a flat byte buffer.
//!
//! * [`arith`] defines the arithmetic of the machine over the integers.
//! * [`instruction`] holds the opcode set and the byte-to-opcode decoder.
//! * [`outcome`] holds what a step reports: how the machine goes on, or what
//!   is wrong with the program.
//! * [`model`] is the mathematical description of the machine: its state as
//!   sequences and integers, and one step as a function on that state.
//! * [`vm`] is the executable machine, verified against the model.
//! * [`laws`] states and proves what holds of every program.
pub mod arith;
pub mod instruction;
pub mod laws;
pub mod model;
pub mod outcome;
pub mod vm;
