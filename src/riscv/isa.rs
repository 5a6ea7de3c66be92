//! The RV32I instruction classes and mnemonics, and the classifier that maps
//! an opcode, a funct3 field and the alternate bit to them.

use super::{
    RV32_OP_CODES_ARITH_IMM, RV32_OP_CODES_ARITH_REG, RV32_OP_CODES_AUIPC, RV32_OP_CODES_BR,
    RV32_OP_CODES_JAL, RV32_OP_CODES_JALR, RV32_OP_CODES_LUI, RV32_OP_CODES_MEM_LD,
    RV32_OP_CODES_MEM_ST,
};
use vstd::prelude::*;

verus! {

/// Encoding class of an instruction: which fields it carries and how its
/// immediate is laid out.
#[derive(Debug, Clone, Copy, PartialEq, Eq, Structural)]
pub enum RVT {
    /// Register type
    R,
    /// Immediate type
    I,
    /// Store type
    S,
    /// Branch type
    B,
    /// Upper-immediate type
    U,
    /// Jump type
    J,
    /// No RV32I encoding class
    Invalid,
}

/// The RV32I operations.
#[derive(Debug, Clone, Copy, PartialEq, Eq, Structural)]
pub enum RV32I {
    ADDI,
    SLTI,
    SLTIU,
    XORI,
    ORI,
    ANDI,
    SLLI,
    SRLI,
    SRAI,
    ADD,
    SUB,
    SLL,
    SLT,
    SLTU,
    XOR,
    SRL,
    SRA,
    OR,
    AND,
    LB,
    LH,
    LW,
    LBU,
    LHU,
    SB,
    SH,
    SW,
    JAL,
    JALR,
    BEQ,
    BNE,
    BLT,
    BGE,
    BLTU,
    BGEU,
    LUI,
    AUIPC,
    Invalid,
}

/// Encoding class selected by a major opcode.
pub open spec fn class_of(op_code: u8) -> RVT {
    if op_code == RV32_OP_CODES_LUI || op_code == RV32_OP_CODES_AUIPC {
        RVT::U
    } else if op_code == RV32_OP_CODES_JAL {
        RVT::J
    } else if op_code == RV32_OP_CODES_JALR || op_code == RV32_OP_CODES_MEM_LD || op_code
        == RV32_OP_CODES_ARITH_IMM {
        RVT::I
    } else if op_code == RV32_OP_CODES_BR {
        RVT::B
    } else if op_code == RV32_OP_CODES_MEM_ST {
        RVT::S
    } else if op_code == RV32_OP_CODES_ARITH_REG {
        RVT::R
    } else {
        RVT::Invalid
    }
}

/// Operation selected by a major opcode, its funct3 field and the alternate
/// bit (bit 30 of the instruction word).
pub open spec fn op_of(op_code: u8, funct3: u8, alt: bool) -> RV32I {
    if op_code == RV32_OP_CODES_LUI {
        RV32I::LUI
    } else if op_code == RV32_OP_CODES_AUIPC {
        RV32I::AUIPC
    } else if op_code == RV32_OP_CODES_JAL {
        RV32I::JAL
    } else if op_code == RV32_OP_CODES_JALR {
        if funct3 == 0 { RV32I::JALR } else { RV32I::Invalid }
    } else if op_code == RV32_OP_CODES_BR {
        match funct3 {
            0 => RV32I::BEQ,
            1 => RV32I::BNE,
            4 => RV32I::BLT,
            5 => RV32I::BGE,
            6 => RV32I::BLTU,
            7 => RV32I::BGEU,
            _ => RV32I::Invalid,
        }
    } else if op_code == RV32_OP_CODES_MEM_LD {
        match funct3 {
            0 => RV32I::LB,
            1 => RV32I::LH,
            2 => RV32I::LW,
            4 => RV32I::LBU,
            5 => RV32I::LHU,
            _ => RV32I::Invalid,
        }
    } else if op_code == RV32_OP_CODES_MEM_ST {
        match funct3 {
            0 => RV32I::SB,
            1 => RV32I::SH,
            2 => RV32I::SW,
            _ => RV32I::Invalid,
        }
    } else if op_code == RV32_OP_CODES_ARITH_REG {
        match funct3 {
            0 => if alt { RV32I::SUB } else { RV32I::ADD },
            1 => RV32I::SLL,
            2 => RV32I::SLT,
            3 => RV32I::SLTU,
            4 => RV32I::XOR,
            5 => if alt { RV32I::SRA } else { RV32I::SRL },
            6 => RV32I::OR,
            7 => RV32I::AND,
            _ => RV32I::Invalid,
        }
    } else if op_code == RV32_OP_CODES_ARITH_IMM {
        match funct3 {
            0 => RV32I::ADDI,
            1 => RV32I::SLLI,
            2 => RV32I::SLTI,
            3 => RV32I::SLTIU,
            4 => RV32I::XORI,
            5 => if alt { RV32I::SRAI } else { RV32I::SRLI },
            6 => RV32I::ORI,
            7 => RV32I::ANDI,
            _ => RV32I::Invalid,
        }
    } else {
        RV32I::Invalid
    }
}

/// The shifts by an immediate amount, which carry a shift amount in place of
/// an immediate.
pub open spec fn is_shift_imm(op: RV32I) -> bool {
    op == RV32I::SLLI || op == RV32I::SRLI || op == RV32I::SRAI
}

/// Classes that carry a destination register.
pub open spec fn class_has_rd(t: RVT) -> bool {
    t == RVT::R || t == RVT::I || t == RVT::U || t == RVT::J
}

/// Classes that carry a first source register.
pub open spec fn class_has_rs1(t: RVT) -> bool {
    t == RVT::R || t == RVT::I || t == RVT::S || t == RVT::B
}

/// Classes that carry a second source register.
pub open spec fn class_has_rs2(t: RVT) -> bool {
    t == RVT::R || t == RVT::S || t == RVT::B
}

/// Class and operation of an instruction.
#[derive(Debug, Clone, Copy, PartialEq, Eq, Structural)]
pub struct InstrType {
    pub instr_type: RVT,
    pub instr_op: RV32I,
}

impl InstrType {
    /// Classifies an instruction from its major opcode, its funct3 field and
    /// its alternate bit.
    pub fn new(op_code: u8, funct3: u8, option_op: bool) -> (r: Self)
        ensures
            r.instr_type == class_of(op_code),
            r.instr_op == op_of(op_code, funct3, option_op),
    {
        InstrType { instr_type: RVT::new(op_code), instr_op: RV32I::new(op_code, funct3, option_op) }
    }

    /// Whether the instruction is a shift by an immediate amount.
    pub fn has_option(&self) -> (r: bool)
        ensures
            r == is_shift_imm(self.instr_op),
    {
        self.instr_op == RV32I::SLLI || self.instr_op == RV32I::SRLI || self.instr_op
            == RV32I::SRAI
    }

    /// Whether the instruction has a destination register.
    pub fn has_rd(&self) -> (r: bool)
        ensures
            r == class_has_rd(self.instr_type),
    {
        self.instr_type == RVT::R || self.instr_type == RVT::I || self.instr_type == RVT::U
            || self.instr_type == RVT::J
    }

    /// Whether the instruction has a first source register.
    pub fn has_rs1(&self) -> (r: bool)
        ensures
            r == class_has_rs1(self.instr_type),
    {
        self.instr_type == RVT::R || self.instr_type == RVT::I || self.instr_type == RVT::S
            || self.instr_type == RVT::B
    }

    /// Whether the instruction has a second source register.
    pub fn has_rs2(&self) -> (r: bool)
        ensures
            r == class_has_rs2(self.instr_type),
    {
        self.instr_type == RVT::R || self.instr_type == RVT::S || self.instr_type == RVT::B
    }
}

impl RVT {
    /// Encoding class of a major opcode.
    pub fn new(op_code: u8) -> (r: Self)
        ensures
            r == class_of(op_code),
    {
        match op_code {
            RV32_OP_CODES_LUI => RVT::U,
            RV32_OP_CODES_AUIPC => RVT::U,
            RV32_OP_CODES_JAL => RVT::J,
            RV32_OP_CODES_JALR => RVT::I,
            RV32_OP_CODES_BR => RVT::B,
            RV32_OP_CODES_MEM_LD => RVT::I,
            RV32_OP_CODES_MEM_ST => RVT::S,
            RV32_OP_CODES_ARITH_REG => RVT::R,
            RV32_OP_CODES_ARITH_IMM => RVT::I,
            _ => RVT::Invalid,
        }
    }
}

impl RV32I {
    /// Operation selected by a major opcode, its funct3 field and the
    /// alternate bit.
    pub fn new(op_code: u8, funct3: u8, option_op: bool) -> (r: Self)
        ensures
            r == op_of(op_code, funct3, option_op),
    {
        match op_code {
            RV32_OP_CODES_LUI => RV32I::LUI,
            RV32_OP_CODES_AUIPC => RV32I::AUIPC,
            RV32_OP_CODES_JAL => RV32I::JAL,
            RV32_OP_CODES_JALR => match funct3 {
                0 => RV32I::JALR,
                _ => RV32I::Invalid,
            },
            RV32_OP_CODES_BR => match funct3 {
                0 => RV32I::BEQ,
                1 => RV32I::BNE,
                4 => RV32I::BLT,
                5 => RV32I::BGE,
                6 => RV32I::BLTU,
                7 => RV32I::BGEU,
                _ => RV32I::Invalid,
            },
            RV32_OP_CODES_MEM_LD => match funct3 {
                0 => RV32I::LB,
                1 => RV32I::LH,
                2 => RV32I::LW,
                4 => RV32I::LBU,
                5 => RV32I::LHU,
                _ => RV32I::Invalid,
            },
            RV32_OP_CODES_MEM_ST => match funct3 {
                0 => RV32I::SB,
                1 => RV32I::SH,
                2 => RV32I::SW,
                _ => RV32I::Invalid,
            },
            RV32_OP_CODES_ARITH_REG => match funct3 {
                0 => if option_op { RV32I::SUB } else { RV32I::ADD },
                1 => RV32I::SLL,
                2 => RV32I::SLT,
                3 => RV32I::SLTU,
                4 => RV32I::XOR,
                5 => if option_op { RV32I::SRA } else { RV32I::SRL },
                6 => RV32I::OR,
                7 => RV32I::AND,
                _ => RV32I::Invalid,
            },
            RV32_OP_CODES_ARITH_IMM => match funct3 {
                0 => RV32I::ADDI,
                1 => RV32I::SLLI,
                2 => RV32I::SLTI,
                3 => RV32I::SLTIU,
                4 => RV32I::XORI,
                5 => if option_op { RV32I::SRAI } else { RV32I::SRLI },
                6 => RV32I::ORI,
                7 => RV32I::ANDI,
                _ => RV32I::Invalid,
            },
            _ => RV32I::Invalid,
        }
    }
}

} // verus!
