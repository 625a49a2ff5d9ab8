//! An interpreter for the RV32I base integer instruction set.
//!
//! The crate is split along the lines of the hardware it models:
//! [`decode`] holds the pure bit-field extractors for the six instruction
//! formats, [`memory`] a bounds-checked little-endian byte store, and
//! [`cpu`] the register file, program counter and instruction dispatch.
//! Every executed instruction is specified against a mathematical
//! single-step function over a ghost view of the machine state.

pub mod arith;
pub mod cpu;
pub mod decode;
pub mod fault;
pub mod memory;
