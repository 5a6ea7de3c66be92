//! Encoding of well-formed instructions back into 32-bit words, and the
//! proof that decoding undoes it.

use super::decoder::{
    class_of_op, collapse, decode, invalid_instruction, lemma_decode_wf, sext, Instruction,
};
use super::isa::{class_of, is_shift_imm, op_of, RV32I, RVT};
use vstd::prelude::*;

verus! {

/// Major opcode of each operation.
pub open spec fn opcode_of_op(op: RV32I) -> u32 {
    match op {
        RV32I::ADDI | RV32I::SLTI | RV32I::SLTIU | RV32I::XORI | RV32I::ORI | RV32I::ANDI
        | RV32I::SLLI | RV32I::SRLI | RV32I::SRAI => 0x13,
        RV32I::ADD | RV32I::SUB | RV32I::SLL | RV32I::SLT | RV32I::SLTU | RV32I::XOR | RV32I::SRL
        | RV32I::SRA | RV32I::OR | RV32I::AND => 0x33,
        RV32I::LB | RV32I::LH | RV32I::LW | RV32I::LBU | RV32I::LHU => 0x03,
        RV32I::SB | RV32I::SH | RV32I::SW => 0x23,
        RV32I::BEQ | RV32I::BNE | RV32I::BLT | RV32I::BGE | RV32I::BLTU | RV32I::BGEU => 0x63,
        RV32I::JALR => 0x67,
        RV32I::JAL => 0x6f,
        RV32I::AUIPC => 0x17,
        RV32I::LUI => 0x37,
        RV32I::Invalid => 0,
    }
}

/// The funct3 field of each operation.
pub open spec fn funct3_of_op(op: RV32I) -> u32 {
    match op {
        RV32I::SLLI | RV32I::SLL | RV32I::LH | RV32I::SH | RV32I::BNE => 1,
        RV32I::SLTI | RV32I::SLT | RV32I::LW | RV32I::SW => 2,
        RV32I::SLTIU | RV32I::SLTU => 3,
        RV32I::XORI | RV32I::XOR | RV32I::LBU | RV32I::BLT => 4,
        RV32I::SRLI | RV32I::SRAI | RV32I::SRL | RV32I::SRA | RV32I::LHU | RV32I::BGE => 5,
        RV32I::ORI | RV32I::OR | RV32I::BLTU => 6,
        RV32I::ANDI | RV32I::AND | RV32I::BGEU => 7,
        _ => 0,
    }
}

/// The funct7 field (bits 31..25) of the register-register operations and
/// of the shifts by an immediate amount.
pub open spec fn funct7_of_op(op: RV32I) -> u32 {
    match op {
        RV32I::SUB | RV32I::SRA | RV32I::SRAI => 0x20,
        _ => 0,
    }
}

/// R-type layout; also that of the shifts by an immediate amount, with the
/// shift amount in place of `rs2`.
pub open spec fn enc_r(opc: u32, f3: u32, rd: u32, rs1: u32, rs2: u32, f7: u32) -> u32 {
    opc | (rd << 7) | (f3 << 12) | (rs1 << 15) | (rs2 << 20) | (f7 << 25)
}

/// I-type layout: the immediate's low twelve bits in bits 31..20.
pub open spec fn enc_i(opc: u32, f3: u32, rd: u32, rs1: u32, x: u32) -> u32 {
    opc | (rd << 7) | (f3 << 12) | (rs1 << 15) | ((x & 0xfff) << 20)
}

/// S-type layout: immediate bits 11..5 in bits 31..25, bits 4..0 in bits
/// 11..7.
pub open spec fn enc_s(opc: u32, f3: u32, rs1: u32, rs2: u32, x: u32) -> u32 {
    opc | ((x & 0x1f) << 7) | (f3 << 12) | (rs1 << 15) | (rs2 << 20) | (((x >> 5) & 0x7f) << 25)
}

/// B-type layout: immediate bit 12 in bit 31, bits 10..5 in bits 30..25,
/// bits 4..1 in bits 11..8 and bit 11 in bit 7.
pub open spec fn enc_b(opc: u32, f3: u32, rs1: u32, rs2: u32, x: u32) -> u32 {
    opc | (((x >> 11) & 1) << 7) | (((x >> 1) & 0xf) << 8) | (f3 << 12) | (rs1 << 15) | (rs2
        << 20) | (((x >> 5) & 0x3f) << 25) | (((x >> 12) & 1) << 31)
}

/// U-type layout: immediate bits 31..12 in place.
pub open spec fn enc_u(opc: u32, rd: u32, x: u32) -> u32 {
    opc | (rd << 7) | (x & 0xffff_f000)
}

/// J-type layout: immediate bit 20 in bit 31, bits 10..1 in bits 30..21,
/// bit 11 in bit 20 and bits 19..12 in place.
pub open spec fn enc_j(opc: u32, rd: u32, x: u32) -> u32 {
    opc | (rd << 7) | (((x >> 12) & 0xff) << 12) | (((x >> 11) & 1) << 20) | (((x >> 1) & 0x3ff)
        << 21) | (((x >> 20) & 1) << 31)
}

/// A register field as bits; zero when absent.
pub open spec fn reg_bits(r: Option<u8>) -> u32 {
    match r {
        Some(x) => x as u32,
        None => 0,
    }
}

/// An immediate as bits in two's complement; zero when absent.
pub open spec fn imm_bits(i: Option<i32>) -> u32 {
    match i {
        Some(v) => v as u32,
        None => 0,
    }
}

/// The word that encodes instruction `i`; zero for an invalid instruction.
pub open spec fn encode(i: Instruction) -> u32 {
    let op = i.instr.instr_op;
    let opc = opcode_of_op(op);
    let f3 = funct3_of_op(op);
    let rd = reg_bits(i.rd);
    let rs1 = reg_bits(i.rs1);
    let rs2 = reg_bits(i.rs2);
    let x = imm_bits(i.imm);
    match i.instr.instr_type {
        RVT::R => enc_r(opc, f3, rd, rs1, rs2, funct7_of_op(op)),
        RVT::I => if is_shift_imm(op) {
            enc_r(opc, f3, rd, rs1, reg_bits(i.shamt), funct7_of_op(op))
        } else {
            enc_i(opc, f3, rd, rs1, x)
        },
        RVT::S => enc_s(opc, f3, rs1, rs2, x),
        RVT::B => enc_b(opc, f3, rs1, rs2, x),
        RVT::U => enc_u(opc, rd, x),
        RVT::J => enc_j(opc, rd, x),
        RVT::Invalid => 0,
    }
}

proof fn lemma_enc_r(opc: u32, f3: u32, rd: u32, rs1: u32, rs2: u32, f7: u32)
    by (bit_vector)
    requires
        opc < 0x80,
        f3 < 8,
        rd < 32,
        rs1 < 32,
        rs2 < 32,
        f7 == 0 || f7 == 0x20,
    ensures
        enc_r(opc, f3, rd, rs1, rs2, f7) & 0x7f == opc,
        (enc_r(opc, f3, rd, rs1, rs2, f7) >> 12) & 0x7 == f3,
        (enc_r(opc, f3, rd, rs1, rs2, f7) >> 7) & 0x1f == rd,
        (enc_r(opc, f3, rd, rs1, rs2, f7) >> 15) & 0x1f == rs1,
        (enc_r(opc, f3, rd, rs1, rs2, f7) >> 20) & 0x1f == rs2,
        ((enc_r(opc, f3, rd, rs1, rs2, f7) >> 30) & 1 == 1) == (f7 == 0x20),
{
}

proof fn lemma_enc_i(opc: u32, f3: u32, rd: u32, rs1: u32, x: u32)
    by (bit_vector)
    requires
        opc < 0x80,
        f3 < 8,
        rd < 32,
        rs1 < 32,
    ensures
        enc_i(opc, f3, rd, rs1, x) & 0x7f == opc,
        (enc_i(opc, f3, rd, rs1, x) >> 12) & 0x7 == f3,
        (enc_i(opc, f3, rd, rs1, x) >> 7) & 0x1f == rd,
        (enc_i(opc, f3, rd, rs1, x) >> 15) & 0x1f == rs1,
        (enc_i(opc, f3, rd, rs1, x) >> 20) & 0xfff == x & 0xfff,
{
}

proof fn lemma_enc_s(opc: u32, f3: u32, rs1: u32, rs2: u32, x: u32)
    by (bit_vector)
    requires
        opc < 0x80,
        f3 < 8,
        rs1 < 32,
        rs2 < 32,
    ensures
        enc_s(opc, f3, rs1, rs2, x) & 0x7f == opc,
        (enc_s(opc, f3, rs1, rs2, x) >> 12) & 0x7 == f3,
        (enc_s(opc, f3, rs1, rs2, x) >> 15) & 0x1f == rs1,
        (enc_s(opc, f3, rs1, rs2, x) >> 20) & 0x1f == rs2,
        ((enc_s(opc, f3, rs1, rs2, x) >> 25) & 0x7f) * 0x20 + ((enc_s(opc, f3, rs1, rs2, x) >> 7)
            & 0x1f) == x & 0xfff,
{
}

proof fn lemma_enc_b(opc: u32, f3: u32, rs1: u32, rs2: u32, x: u32)
    by (bit_vector)
    requires
        opc < 0x80,
        f3 < 8,
        rs1 < 32,
        rs2 < 32,
    ensures
        enc_b(opc, f3, rs1, rs2, x) & 0x7f == opc,
        (enc_b(opc, f3, rs1, rs2, x) >> 12) & 0x7 == f3,
        (enc_b(opc, f3, rs1, rs2, x) >> 15) & 0x1f == rs1,
        (enc_b(opc, f3, rs1, rs2, x) >> 20) & 0x1f == rs2,
        ((enc_b(opc, f3, rs1, rs2, x) >> 31) & 1) * 0x1000 + ((enc_b(opc, f3, rs1, rs2, x) >> 7)
            & 1) * 0x800 + ((enc_b(opc, f3, rs1, rs2, x) >> 25) & 0x3f) * 0x20 + ((enc_b(
            opc,
            f3,
            rs1,
            rs2,
            x,
        ) >> 8) & 0xf) * 2 == x & 0x1ffe,
{
}

proof fn lemma_enc_u(opc: u32, rd: u32, x: u32)
    by (bit_vector)
    requires
        opc < 0x80,
        rd < 32,
    ensures
        enc_u(opc, rd, x) & 0x7f == opc,
        (enc_u(opc, rd, x) >> 7) & 0x1f == rd,
        enc_u(opc, rd, x) >> 12 == x >> 12,
{
}

proof fn lemma_enc_j(opc: u32, rd: u32, x: u32)
    by (bit_vector)
    requires
        opc < 0x80,
        rd < 32,
    ensures
        enc_j(opc, rd, x) & 0x7f == opc,
        (enc_j(opc, rd, x) >> 7) & 0x1f == rd,
        ((enc_j(opc, rd, x) >> 31) & 1) * 0x10_0000 + ((enc_j(opc, rd, x) >> 12) & 0xff) * 0x1000
            + ((enc_j(opc, rd, x) >> 20) & 1) * 0x800 + ((enc_j(opc, rd, x) >> 21) & 0x3ff) * 2
            == x & 0x1f_fffe,
{
}

proof fn lemma_as_u32(v: i32)
    ensures
        (v as u32) as int == if v < 0 {
            v + 0x1_0000_0000
        } else {
            v as int
        },
{
    assert((v as u32) as int == if v < 0 {
        v + 0x1_0000_0000
    } else {
        v as int
    }) by (bit_vector);
}

proof fn lemma_masks(x: u32)
    ensures
        x & 0xfff == x % 0x1000,
        x & 0x1ffe == x % 0x2000 - x % 2,
        x & 0x1f_fffe == x % 0x20_0000 - x % 2,
        (x >> 12) * 0x1000 == x - x % 0x1000,
{
    assert(x & 0xfff == x % 0x1000) by (bit_vector);
    assert(x & 0x1ffe == x % 0x2000 - x % 2) by (bit_vector);
    assert(x & 0x1f_fffe == x % 0x20_0000 - x % 2) by (bit_vector);
    assert((x >> 12) * 0x1000 == x - x % 0x1000) by (bit_vector);
}

proof fn lemma_imm_i(imm: i32)
    requires
        -0x800 <= imm < 0x800,
    ensures
        sext(((imm as u32) & 0xfff) as int, 0x800) == imm,
{
    lemma_as_u32(imm);
    lemma_masks(imm as u32);
    let x = (imm as u32) as int;
    if imm < 0 {
        assert(x == (imm + 0x1000) + 0x1000 * 0xf_ffff);
        vstd::arithmetic::div_mod::lemma_mod_multiples_vanish(0xf_ffff, imm + 0x1000, 0x1000);
        vstd::arithmetic::div_mod::lemma_small_mod((imm + 0x1000) as nat, 0x1000);
    } else {
        vstd::arithmetic::div_mod::lemma_small_mod(imm as nat, 0x1000);
    }
}

proof fn lemma_imm_b(imm: i32)
    requires
        -0x1000 <= imm < 0x1000,
        imm % 2 == 0,
    ensures
        sext(((imm as u32) & 0x1ffe) as int, 0x1000) == imm,
{
    lemma_as_u32(imm);
    lemma_masks(imm as u32);
    let x = (imm as u32) as int;
    if imm < 0 {
        assert(x == (imm + 0x2000) + 0x2000 * 0x7_ffff);
        vstd::arithmetic::div_mod::lemma_mod_multiples_vanish(0x7_ffff, imm + 0x2000, 0x2000);
        vstd::arithmetic::div_mod::lemma_small_mod((imm + 0x2000) as nat, 0x2000);
        assert(x == (imm + 0x2000) + 2 * 0x7fff_f000);
        vstd::arithmetic::div_mod::lemma_mod_multiples_vanish(0x7fff_f000, imm + 0x2000, 2);
    } else {
        vstd::arithmetic::div_mod::lemma_small_mod(imm as nat, 0x2000);
    }
}

proof fn lemma_imm_j(imm: i32)
    requires
        -0x10_0000 <= imm < 0x10_0000,
        imm % 2 == 0,
    ensures
        sext(((imm as u32) & 0x1f_fffe) as int, 0x10_0000) == imm,
{
    lemma_as_u32(imm);
    lemma_masks(imm as u32);
    let x = (imm as u32) as int;
    if imm < 0 {
        assert(x == (imm + 0x20_0000) + 0x20_0000 * 0x7ff);
        vstd::arithmetic::div_mod::lemma_mod_multiples_vanish(0x7ff, imm + 0x20_0000, 0x20_0000);
        vstd::arithmetic::div_mod::lemma_small_mod((imm + 0x20_0000) as nat, 0x20_0000);
        assert(x == (imm + 0x20_0000) + 2 * 0x7ff0_0000);
        vstd::arithmetic::div_mod::lemma_mod_multiples_vanish(0x7ff0_0000, imm + 0x20_0000, 2);
    } else {
        vstd::arithmetic::div_mod::lemma_small_mod(imm as nat, 0x20_0000);
    }
}

proof fn lemma_imm_u(imm: i32)
    requires
        imm % 0x1000 == 0,
    ensures
        sext(((imm as u32) >> 12) as int * 0x1000, 0x8000_0000) == imm,
{
    lemma_as_u32(imm);
    lemma_masks(imm as u32);
    let x = (imm as u32) as int;
    if imm < 0 {
        assert(x == imm + 0x1000 * 0x10_0000);
        vstd::arithmetic::div_mod::lemma_mod_multiples_vanish(0x10_0000, imm as int, 0x1000);
    }
}

/// Operations whose decoding reads the alternate bit.
pub open spec fn reads_alt(op: RV32I) -> bool {
    op == RV32I::ADD || op == RV32I::SUB || op == RV32I::SRL || op == RV32I::SRA || op
        == RV32I::SRLI || op == RV32I::SRAI
}

proof fn lemma_op_fields(op: RV32I, f3: u8, alt: bool)
    requires
        op != RV32I::Invalid,
        class_of_op(op) != RVT::U && class_of_op(op) != RVT::J ==> f3 == funct3_of_op(op),
        reads_alt(op) ==> alt == (funct7_of_op(op) == 0x20),
    ensures
        op_of(opcode_of_op(op) as u8, f3, alt) == op,
        class_of(opcode_of_op(op) as u8) == class_of_op(op),
        opcode_of_op(op) < 0x80,
        funct3_of_op(op) < 8,
        funct7_of_op(op) == 0 || funct7_of_op(op) == 0x20,
{
}

/// Decoding the encoding of an encodable instruction gives it back.
pub proof fn lemma_encode_decode(i: Instruction)
    requires
        i.encodable(),
    ensures
        decode(encode(i)) == i,
{
    if i == invalid_instruction() {
        assert(encode(i) == 0);
        assert(0u32 & 0x7f == 0) by (bit_vector);
        return;
    }
    let op = i.instr.instr_op;
    let t = i.instr.instr_type;
    let opc = opcode_of_op(op);
    let f3 = funct3_of_op(op);
    let f7 = funct7_of_op(op);
    let rd = reg_bits(i.rd);
    let rs1 = reg_bits(i.rs1);
    let rs2 = reg_bits(i.rs2);
    let x = imm_bits(i.imm);
    let w = encode(i);
    lemma_op_fields(op, f3 as u8, f7 == 0x20);
    match t {
        RVT::R => {
            lemma_enc_r(opc, f3, rd, rs1, rs2, f7);
            lemma_op_fields(op, f3 as u8, f7 == 0x20);
        },
        RVT::I => {
            if is_shift_imm(op) {
                lemma_enc_r(opc, f3, rd, rs1, reg_bits(i.shamt), f7);
            } else {
                lemma_enc_i(opc, f3, rd, rs1, x);
                lemma_op_fields(op, f3 as u8, (w >> 30) & 1 == 1);
                lemma_imm_i(i.imm->0);
            }
        },
        RVT::S => {
            lemma_enc_s(opc, f3, rs1, rs2, x);
            lemma_op_fields(op, f3 as u8, (w >> 30) & 1 == 1);
            lemma_imm_i(i.imm->0);
        },
        RVT::B => {
            lemma_enc_b(opc, f3, rs1, rs2, x);
            lemma_op_fields(op, f3 as u8, (w >> 30) & 1 == 1);
            lemma_imm_b(i.imm->0);
        },
        RVT::U => {
            lemma_enc_u(opc, rd, x);
            lemma_op_fields(op, ((w >> 12) & 0x7) as u8, (w >> 30) & 1 == 1);
            lemma_imm_u(i.imm->0);
        },
        RVT::J => {
            lemma_enc_j(opc, rd, x);
            lemma_op_fields(op, ((w >> 12) & 0x7) as u8, (w >> 30) & 1 == 1);
            lemma_imm_j(i.imm->0);
        },
        RVT::Invalid => {},
    }
}

/// A pseudo-instruction, rebuilt from its name and operands into its
/// canonical instruction and encoded, decodes back to the instruction it was
/// read from. Two rows of the table lose information and are left out: `jr`
/// and `jalr` drop a nonzero offset, and BLT with `rs1` = x0 and `rs2` not
/// x0 reads as `bgez`, the form of BGE.
pub proof fn lemma_pseudo_collapse_conservative(w: u32)
    requires
        collapse(decode(w)).code is Some,
        !(decode(w).instr.instr_op == RV32I::JALR && decode(w).imm != Some(0i32)),
        !(decode(w).instr.instr_op == RV32I::BLT && decode(w).rs1 == Some(0u8) && decode(w).rs2
            != Some(0u8)),
    ensures
        collapse(decode(w)).expanded() == decode(w),
        decode(encode(collapse(decode(w)).expanded())) == decode(w),
{
    lemma_decode_wf(w);
    lemma_encode_decode(decode(w));
}

fn opcode_bits(op: RV32I) -> (r: u32)
    ensures
        r == opcode_of_op(op),
{
    match op {
        RV32I::ADDI | RV32I::SLTI | RV32I::SLTIU | RV32I::XORI | RV32I::ORI | RV32I::ANDI
        | RV32I::SLLI | RV32I::SRLI | RV32I::SRAI => 0x13,
        RV32I::ADD | RV32I::SUB | RV32I::SLL | RV32I::SLT | RV32I::SLTU | RV32I::XOR | RV32I::SRL
        | RV32I::SRA | RV32I::OR | RV32I::AND => 0x33,
        RV32I::LB | RV32I::LH | RV32I::LW | RV32I::LBU | RV32I::LHU => 0x03,
        RV32I::SB | RV32I::SH | RV32I::SW => 0x23,
        RV32I::BEQ | RV32I::BNE | RV32I::BLT | RV32I::BGE | RV32I::BLTU | RV32I::BGEU => 0x63,
        RV32I::JALR => 0x67,
        RV32I::JAL => 0x6f,
        RV32I::AUIPC => 0x17,
        RV32I::LUI => 0x37,
        RV32I::Invalid => 0,
    }
}

fn funct3_bits(op: RV32I) -> (r: u32)
    ensures
        r == funct3_of_op(op),
{
    match op {
        RV32I::SLLI | RV32I::SLL | RV32I::LH | RV32I::SH | RV32I::BNE => 1,
        RV32I::SLTI | RV32I::SLT | RV32I::LW | RV32I::SW => 2,
        RV32I::SLTIU | RV32I::SLTU => 3,
        RV32I::XORI | RV32I::XOR | RV32I::LBU | RV32I::BLT => 4,
        RV32I::SRLI | RV32I::SRAI | RV32I::SRL | RV32I::SRA | RV32I::LHU | RV32I::BGE => 5,
        RV32I::ORI | RV32I::OR | RV32I::BLTU => 6,
        RV32I::ANDI | RV32I::AND | RV32I::BGEU => 7,
        _ => 0,
    }
}

fn funct7_bits(op: RV32I) -> (r: u32)
    ensures
        r == funct7_of_op(op),
{
    match op {
        RV32I::SUB | RV32I::SRA | RV32I::SRAI => 0x20,
        _ => 0,
    }
}

fn field_bits(r: Option<u8>) -> (b: u32)
    ensures
        b == reg_bits(r),
{
    match r {
        Some(x) => x as u32,
        None => 0,
    }
}

impl Instruction {
    /// The word that encodes the instruction; zero for the invalid
    /// instruction.
    pub fn encode(&self) -> (r: u32)
        requires
            self.encodable(),
        ensures
            r == encode(*self),
            decode(r) == *self,
    {
        proof {
            lemma_encode_decode(*self);
        }
        let op = self.instr.instr_op;
        let opc = opcode_bits(op);
        let f3 = funct3_bits(op);
        let f7 = funct7_bits(op);
        let rd = field_bits(self.rd);
        let rs1 = field_bits(self.rs1);
        let rs2 = field_bits(self.rs2);
        let x: u32 = match self.imm {
            Some(v) => v as u32,
            None => 0,
        };
        match self.instr.instr_type {
            RVT::R => opc | (rd << 7) | (f3 << 12) | (rs1 << 15) | (rs2 << 20) | (f7 << 25),
            RVT::I => if self.instr.has_option() {
                let shamt = field_bits(self.shamt);
                opc | (rd << 7) | (f3 << 12) | (rs1 << 15) | (shamt << 20) | (f7 << 25)
            } else {
                opc | (rd << 7) | (f3 << 12) | (rs1 << 15) | ((x & 0xfff) << 20)
            },
            RVT::S => opc | ((x & 0x1f) << 7) | (f3 << 12) | (rs1 << 15) | (rs2 << 20) | (((x >> 5)
                & 0x7f) << 25),
            RVT::B => opc | (((x >> 11) & 1) << 7) | (((x >> 1) & 0xf) << 8) | (f3 << 12) | (rs1
                << 15) | (rs2 << 20) | (((x >> 5) & 0x3f) << 25) | (((x >> 12) & 1) << 31),
            RVT::U => opc | (rd << 7) | (x & 0xffff_f000),
            RVT::J => opc | (rd << 7) | (((x >> 12) & 0xff) << 12) | (((x >> 11) & 1) << 20) | (((x
                >> 1) & 0x3ff) << 21) | (((x >> 20) & 1) << 31),
            RVT::Invalid => 0,
        }
    }
}

} // verus!
