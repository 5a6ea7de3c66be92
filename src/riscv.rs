//! RV32I encodings: major opcodes, classification, decoding and register names.

pub mod decoder;
pub mod encoder;
pub mod isa;
pub mod labels;

use vstd::prelude::*;

verus! {

/// Major opcode of the register-immediate arithmetic instructions.
pub const RV32_OP_CODES_ARITH_IMM: u8 = 0x13;

/// Major opcode of the register-register arithmetic instructions.
pub const RV32_OP_CODES_ARITH_REG: u8 = 0x33;

/// Major opcode of the loads.
pub const RV32_OP_CODES_MEM_LD: u8 = 0x03;

/// Major opcode of the stores.
pub const RV32_OP_CODES_MEM_ST: u8 = 0x23;

/// Major opcode of the conditional branches.
pub const RV32_OP_CODES_BR: u8 = 0x63;

/// Major opcode of JALR.
pub const RV32_OP_CODES_JALR: u8 = 0x67;

/// Major opcode of JAL.
pub const RV32_OP_CODES_JAL: u8 = 0x6f;

/// Major opcode of AUIPC.
pub const RV32_OP_CODES_AUIPC: u8 = 0x17;

/// Major opcode of LUI.
pub const RV32_OP_CODES_LUI: u8 = 0x37;

} // verus!
