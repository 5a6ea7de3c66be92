//! Architectural model of the RV32I base integer instruction set: the
//! instruction classifier and decoder, the disassembler with its
//! pseudo-instruction forms, the ALU, the register file and the flat
//! little-endian memory.

pub mod alu;
pub mod disassembler;
pub mod mem;
pub mod register_file;
pub mod riscv;
pub mod simulator;
pub mod text;
