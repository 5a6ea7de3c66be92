//! Names used in assembly text: ABI register names and operation mnemonics.

use super::isa::RV32I;
use vstd::prelude::*;

verus! {

/// ABI name of register `reg` (zero, ra, sp, gp, tp, t0..t6, s0/fp, s1..s11,
/// a0..a7).
pub open spec fn register_label(reg: u8) -> Seq<char>
    recommends
        reg < 32,
{
    match reg {
        0 => "zero"@,
        1 => "ra"@,
        2 => "sp"@,
        3 => "gp"@,
        4 => "tp"@,
        5 => "t0"@,
        6 => "t1"@,
        7 => "t2"@,
        8 => "s0/fp"@,
        9 => "s1"@,
        10 => "a0"@,
        11 => "a1"@,
        12 => "a2"@,
        13 => "a3"@,
        14 => "a4"@,
        15 => "a5"@,
        16 => "a6"@,
        17 => "a7"@,
        18 => "s2"@,
        19 => "s3"@,
        20 => "s4"@,
        21 => "s5"@,
        22 => "s6"@,
        23 => "s7"@,
        24 => "s8"@,
        25 => "s9"@,
        26 => "s10"@,
        27 => "s11"@,
        28 => "t3"@,
        29 => "t4"@,
        30 => "t5"@,
        _ => "t6"@,
    }
}

/// ABI name of register `reg`, which must be one of the 32 registers.
pub fn get_register_label(reg: u8) -> (r: &'static str)
    requires
        reg < 32,
    ensures
        r@ == register_label(reg),
{
    match reg {
        0 => "zero",
        1 => "ra",
        2 => "sp",
        3 => "gp",
        4 => "tp",
        5 => "t0",
        6 => "t1",
        7 => "t2",
        8 => "s0/fp",
        9 => "s1",
        10 => "a0",
        11 => "a1",
        12 => "a2",
        13 => "a3",
        14 => "a4",
        15 => "a5",
        16 => "a6",
        17 => "a7",
        18 => "s2",
        19 => "s3",
        20 => "s4",
        21 => "s5",
        22 => "s6",
        23 => "s7",
        24 => "s8",
        25 => "s9",
        26 => "s10",
        27 => "s11",
        28 => "t3",
        29 => "t4",
        30 => "t5",
        _ => "t6",
    }
}

/// Lower-case name of operation `op`, left-aligned in eight columns.
pub open spec fn mnemonic_text(op: RV32I) -> Seq<char> {
    match op {
        RV32I::ADDI => "addi    "@,
        RV32I::SLTI => "slti    "@,
        RV32I::SLTIU => "sltiu   "@,
        RV32I::XORI => "xori    "@,
        RV32I::ORI => "ori     "@,
        RV32I::ANDI => "andi    "@,
        RV32I::SLLI => "slli    "@,
        RV32I::SRLI => "srli    "@,
        RV32I::SRAI => "srai    "@,
        RV32I::ADD => "add     "@,
        RV32I::SUB => "sub     "@,
        RV32I::SLL => "sll     "@,
        RV32I::SLT => "slt     "@,
        RV32I::SLTU => "sltu    "@,
        RV32I::XOR => "xor     "@,
        RV32I::SRL => "srl     "@,
        RV32I::SRA => "sra     "@,
        RV32I::OR => "or      "@,
        RV32I::AND => "and     "@,
        RV32I::LB => "lb      "@,
        RV32I::LH => "lh      "@,
        RV32I::LW => "lw      "@,
        RV32I::LBU => "lbu     "@,
        RV32I::LHU => "lhu     "@,
        RV32I::SB => "sb      "@,
        RV32I::SH => "sh      "@,
        RV32I::SW => "sw      "@,
        RV32I::JAL => "jal     "@,
        RV32I::JALR => "jalr    "@,
        RV32I::BEQ => "beq     "@,
        RV32I::BNE => "bne     "@,
        RV32I::BLT => "blt     "@,
        RV32I::BGE => "bge     "@,
        RV32I::BLTU => "bltu    "@,
        RV32I::BGEU => "bgeu    "@,
        RV32I::LUI => "lui     "@,
        RV32I::AUIPC => "auipc   "@,
        RV32I::Invalid => "invalid "@,
    }
}

/// Lower-case name of operation `op`, left-aligned in eight columns.
pub fn mnemonic_str(op: RV32I) -> (r: &'static str)
    ensures
        r@ == mnemonic_text(op),
{
    match op {
        RV32I::ADDI => "addi    ",
        RV32I::SLTI => "slti    ",
        RV32I::SLTIU => "sltiu   ",
        RV32I::XORI => "xori    ",
        RV32I::ORI => "ori     ",
        RV32I::ANDI => "andi    ",
        RV32I::SLLI => "slli    ",
        RV32I::SRLI => "srli    ",
        RV32I::SRAI => "srai    ",
        RV32I::ADD => "add     ",
        RV32I::SUB => "sub     ",
        RV32I::SLL => "sll     ",
        RV32I::SLT => "slt     ",
        RV32I::SLTU => "sltu    ",
        RV32I::XOR => "xor     ",
        RV32I::SRL => "srl     ",
        RV32I::SRA => "sra     ",
        RV32I::OR => "or      ",
        RV32I::AND => "and     ",
        RV32I::LB => "lb      ",
        RV32I::LH => "lh      ",
        RV32I::LW => "lw      ",
        RV32I::LBU => "lbu     ",
        RV32I::LHU => "lhu     ",
        RV32I::SB => "sb      ",
        RV32I::SH => "sh      ",
        RV32I::SW => "sw      ",
        RV32I::JAL => "jal     ",
        RV32I::JALR => "jalr    ",
        RV32I::BEQ => "beq     ",
        RV32I::BNE => "bne     ",
        RV32I::BLT => "blt     ",
        RV32I::BGE => "bge     ",
        RV32I::BLTU => "bltu    ",
        RV32I::BGEU => "bgeu    ",
        RV32I::LUI => "lui     ",
        RV32I::AUIPC => "auipc   ",
        RV32I::Invalid => "invalid ",
    }
}

} // verus!
