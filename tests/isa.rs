use adept_lib::riscv::isa::{InstrType, RV32I, RVT};
use adept_lib::riscv::{
    RV32_OP_CODES_ARITH_IMM, RV32_OP_CODES_ARITH_REG, RV32_OP_CODES_AUIPC, RV32_OP_CODES_BR,
    RV32_OP_CODES_JAL, RV32_OP_CODES_JALR, RV32_OP_CODES_LUI, RV32_OP_CODES_MEM_LD,
    RV32_OP_CODES_MEM_ST,
};

#[test]
fn addi() {
    let final_instr_type = InstrType {
        instr_type: RVT::I,
        instr_op: RV32I::ADDI,
    };
    assert_eq!(InstrType::new(RV32_OP_CODES_ARITH_IMM, 0, false), final_instr_type);
    assert_eq!(InstrType::new(RV32_OP_CODES_ARITH_IMM, 0, true), final_instr_type);
}

#[test]
fn slti() {
    let final_instr_type = InstrType {
        instr_type: RVT::I,
        instr_op: RV32I::SLTI,
    };
    assert_eq!(InstrType::new(RV32_OP_CODES_ARITH_IMM, 2, false), final_instr_type);
    assert_eq!(InstrType::new(RV32_OP_CODES_ARITH_IMM, 2, true), final_instr_type);
}

#[test]
fn sltiu() {
    let final_instr_type = InstrType {
        instr_type: RVT::I,
        instr_op: RV32I::SLTIU,
    };
    assert_eq!(InstrType::new(RV32_OP_CODES_ARITH_IMM, 3, false), final_instr_type);
    assert_eq!(InstrType::new(RV32_OP_CODES_ARITH_IMM, 3, true), final_instr_type);
}

#[test]
fn xori() {
    let final_instr_type = InstrType {
        instr_type: RVT::I,
        instr_op: RV32I::XORI,
    };
    assert_eq!(InstrType::new(RV32_OP_CODES_ARITH_IMM, 4, false), final_instr_type);
    assert_eq!(InstrType::new(RV32_OP_CODES_ARITH_IMM, 4, true), final_instr_type);
}

#[test]
fn ori() {
    let final_instr_type = InstrType {
        instr_type: RVT::I,
        instr_op: RV32I::ORI,
    };
    assert_eq!(InstrType::new(RV32_OP_CODES_ARITH_IMM, 6, false), final_instr_type);
    assert_eq!(InstrType::new(RV32_OP_CODES_ARITH_IMM, 6, true), final_instr_type);
}

#[test]
fn andi() {
    let final_instr_type = InstrType {
        instr_type: RVT::I,
        instr_op: RV32I::ANDI,
    };
    assert_eq!(InstrType::new(RV32_OP_CODES_ARITH_IMM, 7, false), final_instr_type);
    assert_eq!(InstrType::new(RV32_OP_CODES_ARITH_IMM, 7, true), final_instr_type);
}

#[test]
fn isa_slli() {
    let final_instr_type = InstrType {
        instr_type: RVT::I,
        instr_op: RV32I::SLLI,
    };
    assert_eq!(InstrType::new(RV32_OP_CODES_ARITH_IMM, 1, false), final_instr_type);
    assert_eq!(InstrType::new(RV32_OP_CODES_ARITH_IMM, 1, true), final_instr_type);
}

#[test]
fn isa_srli() {
    let final_instr_type = InstrType {
        instr_type: RVT::I,
        instr_op: RV32I::SRLI,
    };
    assert_eq!(InstrType::new(RV32_OP_CODES_ARITH_IMM, 5, false), final_instr_type);
}

#[test]
fn isa_srai() {
    let final_instr_type = InstrType {
        instr_type: RVT::I,
        instr_op: RV32I::SRAI,
    };
    assert_eq!(InstrType::new(RV32_OP_CODES_ARITH_IMM, 5, true), final_instr_type);
}

#[test]
fn isa_add() {
    let final_instr_type = InstrType {
        instr_type: RVT::R,
        instr_op: RV32I::ADD,
    };
    assert_eq!(InstrType::new(RV32_OP_CODES_ARITH_REG, 0, false), final_instr_type);
}

#[test]
fn isa_sub() {
    let final_instr_type = InstrType {
        instr_type: RVT::R,
        instr_op: RV32I::SUB,
    };
    assert_eq!(InstrType::new(RV32_OP_CODES_ARITH_REG, 0, true), final_instr_type);
}

#[test]
fn isa_sll() {
    let final_instr_type = InstrType {
        instr_type: RVT::R,
        instr_op: RV32I::SLL,
    };
    assert_eq!(InstrType::new(RV32_OP_CODES_ARITH_REG, 1, false), final_instr_type);
    assert_eq!(InstrType::new(RV32_OP_CODES_ARITH_REG, 1, true), final_instr_type);
}

#[test]
fn isa_slt() {
    let final_instr_type = InstrType {
        instr_type: RVT::R,
        instr_op: RV32I::SLT,
    };
    assert_eq!(InstrType::new(RV32_OP_CODES_ARITH_REG, 2, false), final_instr_type);
    assert_eq!(InstrType::new(RV32_OP_CODES_ARITH_REG, 2, true), final_instr_type);
}

#[test]
fn isa_sltu() {
    let final_instr_type = InstrType {
        instr_type: RVT::R,
        instr_op: RV32I::SLTU,
    };
    assert_eq!(InstrType::new(RV32_OP_CODES_ARITH_REG, 3, false), final_instr_type);
    assert_eq!(InstrType::new(RV32_OP_CODES_ARITH_REG, 3, true), final_instr_type);
}

#[test]
fn isa_xor() {
    let final_instr_type = InstrType {
        instr_type: RVT::R,
        instr_op: RV32I::XOR,
    };
    assert_eq!(InstrType::new(RV32_OP_CODES_ARITH_REG, 4, false), final_instr_type);
    assert_eq!(InstrType::new(RV32_OP_CODES_ARITH_REG, 4, true), final_instr_type);
}

#[test]
fn isa_srl() {
    let final_instr_type = InstrType {
        instr_type: RVT::R,
        instr_op: RV32I::SRL,
    };
    assert_eq!(InstrType::new(RV32_OP_CODES_ARITH_REG, 5, false), final_instr_type);
}

#[test]
fn isa_sra() {
    let final_instr_type = InstrType {
        instr_type: RVT::R,
        instr_op: RV32I::SRA,
    };
    assert_eq!(InstrType::new(RV32_OP_CODES_ARITH_REG, 5, true), final_instr_type);
}

#[test]
fn isa_or() {
    let final_instr_type = InstrType {
        instr_type: RVT::R,
        instr_op: RV32I::OR,
    };
    assert_eq!(InstrType::new(RV32_OP_CODES_ARITH_REG, 6, false), final_instr_type);
    assert_eq!(InstrType::new(RV32_OP_CODES_ARITH_REG, 6, true), final_instr_type);
}

#[test]
fn isa_and() {
    let final_instr_type = InstrType {
        instr_type: RVT::R,
        instr_op: RV32I::AND,
    };
    assert_eq!(InstrType::new(RV32_OP_CODES_ARITH_REG, 7, false), final_instr_type);
    assert_eq!(InstrType::new(RV32_OP_CODES_ARITH_REG, 7, true), final_instr_type);
}

#[test]
fn isa_lb() {
    let final_instr_type = InstrType {
        instr_type: RVT::I,
        instr_op: RV32I::LB,
    };
    assert_eq!(InstrType::new(RV32_OP_CODES_MEM_LD, 0, false), final_instr_type);
    assert_eq!(InstrType::new(RV32_OP_CODES_MEM_LD, 0, true), final_instr_type);
}

#[test]
fn isa_lh() {
    let final_instr_type = InstrType {
        instr_type: RVT::I,
        instr_op: RV32I::LH,
    };
    assert_eq!(InstrType::new(RV32_OP_CODES_MEM_LD, 1, false), final_instr_type);
    assert_eq!(InstrType::new(RV32_OP_CODES_MEM_LD, 1, true), final_instr_type);
}

#[test]
fn isa_lw() {
    let final_instr_type = InstrType {
        instr_type: RVT::I,
        instr_op: RV32I::LW,
    };
    assert_eq!(InstrType::new(RV32_OP_CODES_MEM_LD, 2, false), final_instr_type);
    assert_eq!(InstrType::new(RV32_OP_CODES_MEM_LD, 2, true), final_instr_type);
}

#[test]
fn isa_lbu() {
    let final_instr_type = InstrType {
        instr_type: RVT::I,
        instr_op: RV32I::LBU,
    };
    assert_eq!(InstrType::new(RV32_OP_CODES_MEM_LD, 4, false), final_instr_type);
    assert_eq!(InstrType::new(RV32_OP_CODES_MEM_LD, 4, true), final_instr_type);
}

#[test]
fn isa_lhu() {
    let final_instr_type = InstrType {
        instr_type: RVT::I,
        instr_op: RV32I::LHU,
    };
    assert_eq!(InstrType::new(RV32_OP_CODES_MEM_LD, 5, false), final_instr_type);
    assert_eq!(InstrType::new(RV32_OP_CODES_MEM_LD, 5, true), final_instr_type);
}

#[test]
fn invalid_load() {
    let final_instr_type = InstrType {
        instr_type: RVT::I,
        instr_op: RV32I::Invalid,
    };
    assert_eq!(InstrType::new(RV32_OP_CODES_MEM_LD, 3, false), final_instr_type);
    assert_eq!(InstrType::new(RV32_OP_CODES_MEM_LD, 3, true), final_instr_type);
    assert_eq!(InstrType::new(RV32_OP_CODES_MEM_LD, 6, false), final_instr_type);
    assert_eq!(InstrType::new(RV32_OP_CODES_MEM_LD, 6, true), final_instr_type);
    assert_eq!(InstrType::new(RV32_OP_CODES_MEM_LD, 7, false), final_instr_type);
    assert_eq!(InstrType::new(RV32_OP_CODES_MEM_LD, 7, true), final_instr_type);
}

#[test]
fn sb() {
    let final_instr_type = InstrType {
        instr_type: RVT::S,
        instr_op: RV32I::SB,
    };
    assert_eq!(InstrType::new(RV32_OP_CODES_MEM_ST, 0, false), final_instr_type);
    assert_eq!(InstrType::new(RV32_OP_CODES_MEM_ST, 0, true), final_instr_type);
}

#[test]
fn isa_sh() {
    let final_instr_type = InstrType {
        instr_type: RVT::S,
        instr_op: RV32I::SH,
    };
    assert_eq!(InstrType::new(RV32_OP_CODES_MEM_ST, 1, false), final_instr_type);
    assert_eq!(InstrType::new(RV32_OP_CODES_MEM_ST, 1, true), final_instr_type);
}

#[test]
fn isa_sw() {
    let final_instr_type = InstrType {
        instr_type: RVT::S,
        instr_op: RV32I::SW,
    };
    assert_eq!(InstrType::new(RV32_OP_CODES_MEM_ST, 2, false), final_instr_type);
    assert_eq!(InstrType::new(RV32_OP_CODES_MEM_ST, 2, true), final_instr_type);
}

#[test]
fn invalid_store() {
    let final_instr_type = InstrType {
        instr_type: RVT::S,
        instr_op: RV32I::Invalid,
    };
    assert_eq!(InstrType::new(RV32_OP_CODES_MEM_ST, 3, false), final_instr_type);
    assert_eq!(InstrType::new(RV32_OP_CODES_MEM_ST, 3, true), final_instr_type);
    assert_eq!(InstrType::new(RV32_OP_CODES_MEM_ST, 4, false), final_instr_type);
    assert_eq!(InstrType::new(RV32_OP_CODES_MEM_ST, 4, true), final_instr_type);
    assert_eq!(InstrType::new(RV32_OP_CODES_MEM_ST, 5, false), final_instr_type);
    assert_eq!(InstrType::new(RV32_OP_CODES_MEM_ST, 5, true), final_instr_type);
    assert_eq!(InstrType::new(RV32_OP_CODES_MEM_ST, 6, false), final_instr_type);
    assert_eq!(InstrType::new(RV32_OP_CODES_MEM_ST, 6, true), final_instr_type);
    assert_eq!(InstrType::new(RV32_OP_CODES_MEM_ST, 7, false), final_instr_type);
    assert_eq!(InstrType::new(RV32_OP_CODES_MEM_ST, 7, true), final_instr_type);
}

#[test]
fn beq() {
    let final_instr_type = InstrType {
        instr_type: RVT::B,
        instr_op: RV32I::BEQ,
    };
    assert_eq!(InstrType::new(RV32_OP_CODES_BR, 0, false), final_instr_type);
    assert_eq!(InstrType::new(RV32_OP_CODES_BR, 0, true), final_instr_type);
}

#[test]
fn isa_bne() {
    let final_instr_type = InstrType {
        instr_type: RVT::B,
        instr_op: RV32I::BNE,
    };
    assert_eq!(InstrType::new(RV32_OP_CODES_BR, 1, false), final_instr_type);
    assert_eq!(InstrType::new(RV32_OP_CODES_BR, 1, true), final_instr_type);
}

#[test]
fn isa_blt() {
    let final_instr_type = InstrType {
        instr_type: RVT::B,
        instr_op: RV32I::BLT,
    };
    assert_eq!(InstrType::new(RV32_OP_CODES_BR, 4, false), final_instr_type);
    assert_eq!(InstrType::new(RV32_OP_CODES_BR, 4, true), final_instr_type);
}

#[test]
fn isa_bge() {
    let final_instr_type = InstrType {
        instr_type: RVT::B,
        instr_op: RV32I::BGE,
    };
    assert_eq!(InstrType::new(RV32_OP_CODES_BR, 5, false), final_instr_type);
    assert_eq!(InstrType::new(RV32_OP_CODES_BR, 5, true), final_instr_type);
}

#[test]
fn isa_bltu() {
    let final_instr_type = InstrType {
        instr_type: RVT::B,
        instr_op: RV32I::BLTU,
    };
    assert_eq!(InstrType::new(RV32_OP_CODES_BR, 6, false), final_instr_type);
    assert_eq!(InstrType::new(RV32_OP_CODES_BR, 6, true), final_instr_type);
}

#[test]
fn isa_bgeu() {
    let final_instr_type = InstrType {
        instr_type: RVT::B,
        instr_op: RV32I::BGEU,
    };
    assert_eq!(InstrType::new(RV32_OP_CODES_BR, 7, false), final_instr_type);
    assert_eq!(InstrType::new(RV32_OP_CODES_BR, 7, true), final_instr_type);
}

#[test]
fn invalid_branch() {
    let final_instr_type = InstrType {
        instr_type: RVT::B,
        instr_op: RV32I::Invalid,
    };
    assert_eq!(InstrType::new(RV32_OP_CODES_BR, 2, false), final_instr_type);
    assert_eq!(InstrType::new(RV32_OP_CODES_BR, 2, true), final_instr_type);
    assert_eq!(InstrType::new(RV32_OP_CODES_BR, 3, false), final_instr_type);
    assert_eq!(InstrType::new(RV32_OP_CODES_BR, 3, true), final_instr_type);
}

#[test]
fn isa_jalr() {
    let final_instr_type = InstrType {
        instr_type: RVT::I,
        instr_op: RV32I::JALR,
    };
    assert_eq!(InstrType::new(RV32_OP_CODES_JALR, 0, false), final_instr_type);
    assert_eq!(InstrType::new(RV32_OP_CODES_JALR, 0, true), final_instr_type);
}

#[test]
fn isa_jal() {
    let final_instr_type = InstrType {
        instr_type: RVT::J,
        instr_op: RV32I::JAL,
    };
    assert_eq!(InstrType::new(RV32_OP_CODES_JAL, 0, false), final_instr_type);
    assert_eq!(InstrType::new(RV32_OP_CODES_JAL, 0, true), final_instr_type);
    assert_eq!(InstrType::new(RV32_OP_CODES_JAL, 1, false), final_instr_type);
    assert_eq!(InstrType::new(RV32_OP_CODES_JAL, 1, true), final_instr_type);
    assert_eq!(InstrType::new(RV32_OP_CODES_JAL, 2, false), final_instr_type);
    assert_eq!(InstrType::new(RV32_OP_CODES_JAL, 2, true), final_instr_type);
    assert_eq!(InstrType::new(RV32_OP_CODES_JAL, 3, false), final_instr_type);
    assert_eq!(InstrType::new(RV32_OP_CODES_JAL, 3, true), final_instr_type);
    assert_eq!(InstrType::new(RV32_OP_CODES_JAL, 4, false), final_instr_type);
    assert_eq!(InstrType::new(RV32_OP_CODES_JAL, 4, true), final_instr_type);
    assert_eq!(InstrType::new(RV32_OP_CODES_JAL, 5, false), final_instr_type);
    assert_eq!(InstrType::new(RV32_OP_CODES_JAL, 5, true), final_instr_type);
    assert_eq!(InstrType::new(RV32_OP_CODES_JAL, 6, false), final_instr_type);
    assert_eq!(InstrType::new(RV32_OP_CODES_JAL, 6, true), final_instr_type);
    assert_eq!(InstrType::new(RV32_OP_CODES_JAL, 7, false), final_instr_type);
    assert_eq!(InstrType::new(RV32_OP_CODES_JAL, 7, true), final_instr_type);
}

#[test]
fn invalid_jalr() {
    let final_instr_type = InstrType {
        instr_type: RVT::I,
        instr_op: RV32I::Invalid,
    };
    assert_eq!(InstrType::new(RV32_OP_CODES_JALR, 1, false), final_instr_type);
    assert_eq!(InstrType::new(RV32_OP_CODES_JALR, 1, true), final_instr_type);
    assert_eq!(InstrType::new(RV32_OP_CODES_JALR, 2, false), final_instr_type);
    assert_eq!(InstrType::new(RV32_OP_CODES_JALR, 2, true), final_instr_type);
    assert_eq!(InstrType::new(RV32_OP_CODES_JALR, 3, false), final_instr_type);
    assert_eq!(InstrType::new(RV32_OP_CODES_JALR, 3, true), final_instr_type);
    assert_eq!(InstrType::new(RV32_OP_CODES_JALR, 4, false), final_instr_type);
    assert_eq!(InstrType::new(RV32_OP_CODES_JALR, 4, true), final_instr_type);
    assert_eq!(InstrType::new(RV32_OP_CODES_JALR, 5, false), final_instr_type);
    assert_eq!(InstrType::new(RV32_OP_CODES_JALR, 5, true), final_instr_type);
    assert_eq!(InstrType::new(RV32_OP_CODES_JALR, 6, false), final_instr_type);
    assert_eq!(InstrType::new(RV32_OP_CODES_JALR, 6, true), final_instr_type);
    assert_eq!(InstrType::new(RV32_OP_CODES_JALR, 7, false), final_instr_type);
    assert_eq!(InstrType::new(RV32_OP_CODES_JALR, 7, true), final_instr_type);
}

#[test]
fn isa_lui() {
    let final_instr_type = InstrType {
        instr_type: RVT::U,
        instr_op: RV32I::LUI,
    };
    assert_eq!(InstrType::new(RV32_OP_CODES_LUI, 0, false), final_instr_type);
    assert_eq!(InstrType::new(RV32_OP_CODES_LUI, 0, true), final_instr_type);
}

#[test]
fn isa_auipc() {
    let final_instr_type = InstrType {
        instr_type: RVT::U,
        instr_op: RV32I::AUIPC,
    };
    assert_eq!(InstrType::new(RV32_OP_CODES_AUIPC, 0, false), final_instr_type);
    assert_eq!(InstrType::new(RV32_OP_CODES_AUIPC, 0, true), final_instr_type);
}
