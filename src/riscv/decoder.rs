//! Decoding of 32-bit RV32I instruction words.

use super::isa::{
    class_has_rd, class_has_rs1, class_has_rs2, class_of, is_shift_imm, op_of, InstrType, RV32I,
    RVT,
};
use super::labels::{get_register_label, mnemonic_str, mnemonic_text, register_label};
use crate::text::{append_decimal, append_signed_decimal, decimal, signed_decimal};
use vstd::prelude::*;

verus! {

/// Bits 6..0: the major opcode.
pub open spec fn opcode_field(w: u32) -> u8 {
    (w & 0x7f) as u8
}

/// Bits 14..12: the funct3 field.
pub open spec fn funct3_field(w: u32) -> u8 {
    ((w >> 12) & 0x7) as u8
}

/// Bit 30: the alternate bit that tells ADD from SUB and SRL from SRA.
pub open spec fn alt_field(w: u32) -> bool {
    (w >> 30) & 1 == 1
}

/// Bits 11..7: the destination register.
pub open spec fn rd_field(w: u32) -> u8 {
    ((w >> 7) & 0x1f) as u8
}

/// Bits 19..15: the first source register.
pub open spec fn rs1_field(w: u32) -> u8 {
    ((w >> 15) & 0x1f) as u8
}

/// Bits 24..20: the second source register, also the shift amount.
pub open spec fn rs2_field(w: u32) -> u8 {
    ((w >> 20) & 0x1f) as u8
}

/// The unsigned value `v` of a field whose top bit weighs `sign`, read as a
/// two's complement number.
pub open spec fn sext(v: int, sign: int) -> int {
    if v >= sign {
        v - 2 * sign
    } else {
        v
    }
}

/// I-type immediate: bits 31..20, sign-extended.
pub open spec fn imm_i(w: u32) -> int {
    sext(((w >> 20) & 0xfff) as int, 0x800)
}

/// S-type immediate: bits 31..25 then bits 11..7, sign-extended.
pub open spec fn imm_s(w: u32) -> int {
    sext(((w >> 25) & 0x7f) as int * 0x20 + ((w >> 7) & 0x1f) as int, 0x800)
}

/// B-type immediate: bit 31, bit 7, bits 30..25, bits 11..8 and a zero bit,
/// sign-extended.
pub open spec fn imm_b(w: u32) -> int {
    sext(
        ((w >> 31) & 1) as int * 0x1000 + ((w >> 7) & 1) as int * 0x800 + ((w >> 25) & 0x3f) as int
            * 0x20 + ((w >> 8) & 0xf) as int * 2,
        0x1000,
    )
}

/// U-type immediate: bits 31..12 followed by twelve zero bits.
pub open spec fn imm_u(w: u32) -> int {
    sext((w >> 12) as int * 0x1000, 0x8000_0000)
}

/// J-type immediate: bit 31, bits 19..12, bit 20, bits 30..21 and a zero bit,
/// sign-extended.
pub open spec fn imm_j(w: u32) -> int {
    sext(
        ((w >> 31) & 1) as int * 0x10_0000 + ((w >> 12) & 0xff) as int * 0x1000 + ((w >> 20) & 1) as int
            * 0x800 + ((w >> 21) & 0x3ff) as int * 2,
        0x10_0000,
    )
}

/// Immediate that an instruction of class `t` carries in word `w`.
pub open spec fn imm_of(t: RVT, w: u32) -> Option<i32> {
    match t {
        RVT::I => Some(imm_i(w) as i32),
        RVT::S => Some(imm_s(w) as i32),
        RVT::B => Some(imm_b(w) as i32),
        RVT::U => Some(imm_u(w) as i32),
        RVT::J => Some(imm_j(w) as i32),
        _ => None,
    }
}

/// A decoded RV32I instruction: its class and operation and the fields that
/// the class carries.
#[derive(Debug, Clone, Copy)]
pub struct Instruction {
    /// Class and operation
    pub instr: InstrType,
    /// Destination register
    pub rd: Option<u8>,
    /// First source register
    pub rs1: Option<u8>,
    /// Second source register
    pub rs2: Option<u8>,
    /// Shift amount
    pub shamt: Option<u8>,
    /// Immediate
    pub imm: Option<i32>,
}

/// The instruction that every unrecognised word decodes to.
pub open spec fn invalid_instruction() -> Instruction {
    Instruction {
        instr: InstrType { instr_type: RVT::Invalid, instr_op: RV32I::Invalid },
        rd: None,
        rs1: None,
        rs2: None,
        shamt: None,
        imm: None,
    }
}

/// The instruction that the word `w` encodes. The major opcode alone fixes
/// the class, and with it the fields; a funct3 that names no operation of
/// that opcode gives the operation `Invalid` within the class.
pub open spec fn decode(w: u32) -> Instruction {
    let t = class_of(opcode_field(w));
    let op = op_of(opcode_field(w), funct3_field(w), alt_field(w));
    if t == RVT::Invalid {
        invalid_instruction()
    } else {
        Instruction {
            instr: InstrType { instr_type: t, instr_op: op },
            rd: if class_has_rd(t) { Some(rd_field(w)) } else { None },
            rs1: if class_has_rs1(t) { Some(rs1_field(w)) } else { None },
            rs2: if class_has_rs2(t) { Some(rs2_field(w)) } else { None },
            shamt: if is_shift_imm(op) { Some(rs2_field(w)) } else { None },
            imm: if is_shift_imm(op) { None } else { imm_of(t, w) },
        }
    }
}

impl Instruction {
    /// Whether this is an invalid instruction.
    pub open spec fn is_invalid(self) -> bool {
        self.instr.instr_type == RVT::Invalid
    }

    /// Equality of instructions: all invalid instructions are equal, whatever
    /// their other fields; others are equal when all their fields are.
    pub open spec fn same_as(self, other: Instruction) -> bool {
        (self.is_invalid() && other.is_invalid()) || self == other
    }

    /// Decodes an RV32I instruction word.
    pub fn new(raw_instr: u32) -> (r: Self)
        ensures
            r == decode(raw_instr),
    {
        let op_code = (raw_instr & 0x7f) as u8;
        let funct3 = ((raw_instr >> 12) & 0x7) as u8;
        let option_op = (raw_instr >> 30) & 1 == 1;
        let instr = InstrType::new(op_code, funct3, option_op);
        if instr.instr_type == RVT::Invalid {
            return Instruction {
                instr: InstrType { instr_type: RVT::Invalid, instr_op: RV32I::Invalid },
                rd: None,
                rs1: None,
                rs2: None,
                shamt: None,
                imm: None,
            };
        }
        let rd = if instr.has_rd() {
            Some(((raw_instr >> 7) & 0x1f) as u8)
        } else {
            None
        };
        let rs1 = if instr.has_rs1() {
            Some(((raw_instr >> 15) & 0x1f) as u8)
        } else {
            None
        };
        let rs2 = if instr.has_rs2() {
            Some(((raw_instr >> 20) & 0x1f) as u8)
        } else {
            None
        };
        let shamt = if instr.has_option() {
            Some(((raw_instr >> 20) & 0x1f) as u8)
        } else {
            None
        };
        let imm = if instr.has_option() {
            None
        } else {
            match instr.instr_type {
                RVT::I => Some(decode_imm_i(raw_instr)),
                RVT::S => Some(decode_imm_s(raw_instr)),
                RVT::B => Some(decode_imm_b(raw_instr)),
                RVT::U => Some(decode_imm_u(raw_instr)),
                RVT::J => Some(decode_imm_j(raw_instr)),
                RVT::Invalid => None,
                RVT::R => None,
            }
        };
        Instruction { instr, rd, rs1, rs2, shamt, imm }
    }

    /// Whether the instruction has an RV32I encoding class.
    pub fn is_valid(&self) -> (r: bool)
        ensures
            r == !self.is_invalid(),
    {
        self.instr.instr_type != RVT::Invalid
    }

    /// Destination register, if the class has one.
    pub fn get_rd(&self) -> (r: Option<u8>)
        ensures
            r == self.rd,
    {
        self.rd
    }

    /// First source register, if the class has one.
    pub fn get_rs1(&self) -> (r: Option<u8>)
        ensures
            r == self.rs1,
    {
        self.rs1
    }

    /// Second source register, if the class has one.
    pub fn get_rs2(&self) -> (r: Option<u8>)
        ensures
            r == self.rs2,
    {
        self.rs2
    }

    /// Shift amount of a shift by an immediate amount.
    pub fn get_shamt(&self) -> (r: Option<u8>)
        ensures
            r == self.shamt,
    {
        self.shamt
    }

    /// Immediate, if the instruction carries one.
    pub fn get_imm(&self) -> (r: Option<i32>)
        ensures
            r == self.imm,
    {
        self.imm
    }

    /// Class and operation of the instruction.
    pub fn get_instr(&self) -> (r: InstrType)
        ensures
            r == self.instr,
    {
        self.instr
    }
}

proof fn lemma_field_bounds(w: u32)
    by (bit_vector)
    ensures
        (w >> 20) & 0xfff <= 0xfff,
        (w >> 25) & 0x7f <= 0x7f,
        (w >> 7) & 0x1f <= 0x1f,
        (w >> 31) & 1 <= 1,
        (w >> 7) & 1 <= 1,
        (w >> 25) & 0x3f <= 0x3f,
        (w >> 8) & 0xf <= 0xf,
        w >> 12 <= 0xf_ffff,
        (w >> 12) & 0xff <= 0xff,
        (w >> 20) & 1 <= 1,
        (w >> 21) & 0x3ff <= 0x3ff,
        (w >> 7) & 0x1f < 32,
        (w >> 15) & 0x1f < 32,
        (w >> 20) & 0x1f < 32,
{
}

fn decode_imm_i(w: u32) -> (r: i32)
    ensures
        r as int == imm_i(w),
{
    proof {
        lemma_field_bounds(w);
    }
    let v = (w >> 20) & 0xfff;
    if v >= 0x800 {
        v as i32 - 0x1000
    } else {
        v as i32
    }
}

fn decode_imm_s(w: u32) -> (r: i32)
    ensures
        r as int == imm_s(w),
{
    proof {
        lemma_field_bounds(w);
    }
    let hi = (w >> 25) & 0x7f;
    let lo = (w >> 7) & 0x1f;
    let v = hi * 0x20 + lo;
    if v >= 0x800 {
        v as i32 - 0x1000
    } else {
        v as i32
    }
}

fn decode_imm_b(w: u32) -> (r: i32)
    ensures
        r as int == imm_b(w),
{
    proof {
        lemma_field_bounds(w);
    }
    let b12 = (w >> 31) & 1;
    let b11 = (w >> 7) & 1;
    let b10_5 = (w >> 25) & 0x3f;
    let b4_1 = (w >> 8) & 0xf;
    let v = b12 * 0x1000 + b11 * 0x800 + b10_5 * 0x20 + b4_1 * 2;
    if v >= 0x1000 {
        v as i32 - 0x2000
    } else {
        v as i32
    }
}

fn decode_imm_u(w: u32) -> (r: i32)
    ensures
        r as int == imm_u(w),
{
    proof {
        lemma_field_bounds(w);
    }
    let hi = w >> 12;
    let v = hi as i64 * 0x1000;
    if v >= 0x8000_0000 {
        (v - 0x1_0000_0000) as i32
    } else {
        v as i32
    }
}

fn decode_imm_j(w: u32) -> (r: i32)
    ensures
        r as int == imm_j(w),
{
    proof {
        lemma_field_bounds(w);
    }
    let b20 = (w >> 31) & 1;
    let b19_12 = (w >> 12) & 0xff;
    let b11 = (w >> 20) & 1;
    let b10_1 = (w >> 21) & 0x3ff;
    let v = b20 * 0x10_0000 + b19_12 * 0x1000 + b11 * 0x800 + b10_1 * 2;
    if v >= 0x10_0000 {
        v as i32 - 0x20_0000
    } else {
        v as i32
    }
}

fn option_u8_eq(a: Option<u8>, b: Option<u8>) -> (r: bool)
    ensures
        r == (a == b),
{
    match (a, b) {
        (Some(x), Some(y)) => x == y,
        (None, None) => true,
        _ => false,
    }
}

impl PartialEq for Instruction {
    fn eq(&self, other: &Self) -> (r: bool) {
        if self.instr.instr_type == RVT::Invalid && other.instr.instr_type == RVT::Invalid {
            return true;
        }
        let same_imm = match (self.imm, other.imm) {
            (Some(x), Some(y)) => x == y,
            (None, None) => true,
            _ => false,
        };
        self.instr == other.instr && option_u8_eq(self.rd, other.rd) && option_u8_eq(
            self.rs1,
            other.rs1,
        ) && option_u8_eq(self.rs2, other.rs2) && option_u8_eq(self.shamt, other.shamt)
            && same_imm
    }
}

impl vstd::std_specs::cmp::PartialEqSpecImpl for Instruction {
    open spec fn obeys_eq_spec() -> bool {
        true
    }

    open spec fn eq_spec(&self, other: &Instruction) -> bool {
        self.same_as(*other)
    }
}

impl Eq for Instruction {

}

/// Encoding class of each operation.
pub open spec fn class_of_op(op: RV32I) -> RVT {
    match op {
        RV32I::ADD | RV32I::SUB | RV32I::SLL | RV32I::SLT | RV32I::SLTU | RV32I::XOR | RV32I::SRL
        | RV32I::SRA | RV32I::OR | RV32I::AND => RVT::R,
        RV32I::SB | RV32I::SH | RV32I::SW => RVT::S,
        RV32I::BEQ | RV32I::BNE | RV32I::BLT | RV32I::BGE | RV32I::BLTU | RV32I::BGEU => RVT::B,
        RV32I::LUI | RV32I::AUIPC => RVT::U,
        RV32I::JAL => RVT::J,
        RV32I::Invalid => RVT::Invalid,
        _ => RVT::I,
    }
}

/// Encoding class of operation `op`.
pub fn op_class(op: RV32I) -> (r: RVT)
    ensures
        r == class_of_op(op),
{
    match op {
        RV32I::ADD | RV32I::SUB | RV32I::SLL | RV32I::SLT | RV32I::SLTU | RV32I::XOR | RV32I::SRL
        | RV32I::SRA | RV32I::OR | RV32I::AND => RVT::R,
        RV32I::SB | RV32I::SH | RV32I::SW => RVT::S,
        RV32I::BEQ | RV32I::BNE | RV32I::BLT | RV32I::BGE | RV32I::BLTU | RV32I::BGEU => RVT::B,
        RV32I::LUI | RV32I::AUIPC => RVT::U,
        RV32I::JAL => RVT::J,
        RV32I::Invalid => RVT::Invalid,
        _ => RVT::I,
    }
}

/// The loads.
pub open spec fn is_load(op: RV32I) -> bool {
    op == RV32I::LB || op == RV32I::LH || op == RV32I::LW || op == RV32I::LBU || op == RV32I::LHU
}

/// Whether `imm` can be encoded as an immediate of class `t`.
pub open spec fn imm_fits(t: RVT, imm: int) -> bool {
    match t {
        RVT::I | RVT::S => -0x800 <= imm < 0x800,
        RVT::B => -0x1000 <= imm < 0x1000 && imm % 2 == 0,
        RVT::U => imm % 0x1000 == 0,
        RVT::J => -0x10_0000 <= imm < 0x10_0000 && imm % 2 == 0,
        _ => true,
    }
}

/// A register field that is present exactly when `present`, and then names
/// one of the 32 registers.
pub open spec fn reg_field_ok(r: Option<u8>, present: bool) -> bool {
    if present {
        r matches Some(x) && x < 32
    } else {
        r is None
    }
}

/// ABI name of a register field, empty when absent.
pub open spec fn opt_label(r: Option<u8>) -> Seq<char> {
    match r {
        Some(x) => register_label(x),
        None => Seq::empty(),
    }
}

/// Decimal text of an immediate, empty when absent.
pub open spec fn opt_decimal(v: Option<i32>) -> Seq<char> {
    match v {
        Some(x) => signed_decimal(x as int),
        None => Seq::empty(),
    }
}

/// Decimal text of a shift amount, empty when absent.
pub open spec fn opt_shamt(v: Option<u8>) -> Seq<char> {
    match v {
        Some(x) => decimal(x as nat),
        None => Seq::empty(),
    }
}

impl Instruction {
    /// Well-formed, as decoding leaves it: the invalid instruction, or an
    /// instruction of a valid class whose operation belongs to that class or
    /// is `Invalid`, with exactly the fields that the class carries,
    /// registers and shift amount below 32 and an immediate that the class
    /// can encode.
    pub open spec fn wf(self) -> bool {
        let t = self.instr.instr_type;
        let op = self.instr.instr_op;
        self == invalid_instruction() || {
            &&& t != RVT::Invalid
            &&& op == RV32I::Invalid || t == class_of_op(op)
            &&& reg_field_ok(self.rd, class_has_rd(t))
            &&& reg_field_ok(self.rs1, class_has_rs1(t))
            &&& reg_field_ok(self.rs2, class_has_rs2(t))
            &&& reg_field_ok(self.shamt, is_shift_imm(op))
            &&& if is_shift_imm(op) || t == RVT::R {
                self.imm is None
            } else {
                self.imm matches Some(v) && imm_fits(t, v as int)
            }
        }
    }

    /// Well-formed with a valid operation, or the invalid instruction: the
    /// instructions that have an encoding.
    pub open spec fn encodable(self) -> bool {
        self.wf() && (self == invalid_instruction() || self.instr.instr_op != RV32I::Invalid)
    }

    /// Each register that the canonical text of the instruction shows is
    /// present and names one of the 32 registers.
    pub open spec fn renderable(self) -> bool {
        match self.instr.instr_type {
            RVT::R => reg_ok(self.rd) && reg_ok(self.rs1) && reg_ok(self.rs2),
            RVT::I => reg_ok(self.rd) && reg_ok(self.rs1),
            RVT::S | RVT::B => reg_ok(self.rs1) && reg_ok(self.rs2),
            RVT::U | RVT::J => reg_ok(self.rd),
            RVT::Invalid => true,
        }
    }

    /// Canonical assembly text of the instruction.
    pub open spec fn text(self) -> Seq<char> {
        let m = mnemonic_text(self.instr.instr_op);
        let op = self.instr.instr_op;
        match self.instr.instr_type {
            RVT::R => m + opt_label(self.rd) + ","@ + opt_label(self.rs1) + ","@ + opt_label(
                self.rs2,
            ),
            RVT::I => if is_load(op) {
                m + opt_label(self.rd) + ","@ + opt_decimal(self.imm) + "("@ + opt_label(self.rs1)
                    + ")"@
            } else if is_shift_imm(op) {
                m + opt_label(self.rd) + ","@ + opt_label(self.rs1) + ","@ + opt_shamt(self.shamt)
            } else {
                m + opt_label(self.rd) + ","@ + opt_label(self.rs1) + ","@ + opt_decimal(self.imm)
            },
            RVT::S => m + opt_label(self.rs2) + ", "@ + opt_decimal(self.imm) + "("@ + opt_label(
                self.rs1,
            ) + ")"@,
            RVT::B => m + opt_label(self.rs1) + ","@ + opt_label(self.rs2) + ","@ + opt_decimal(
                self.imm,
            ),
            RVT::U | RVT::J => m + opt_label(self.rd) + ","@ + opt_decimal(self.imm),
            RVT::Invalid => "Invalid!"@,
        }
    }

    /// Canonical assembly text of the instruction: the mnemonic in eight
    /// columns, then its operands.
    pub fn disassembly(&self) -> (r: String)
        requires
            self.renderable(),
        ensures
            r@ == self.text(),
    {
        let op = self.instr.instr_op;
        let mut s = String::new();
        match self.instr.instr_type {
            RVT::Invalid => {
                s.append("Invalid!");
                assert(s@ =~= self.text());
                return s;
            },
            _ => {},
        }
        s.append(mnemonic_str(op));
        match self.instr.instr_type {
            RVT::R => {
                append_reg(&mut s, self.rd);
                s.append(",");
                append_reg(&mut s, self.rs1);
                s.append(",");
                append_reg(&mut s, self.rs2);
            },
            RVT::I => {
                if op == RV32I::LB || op == RV32I::LH || op == RV32I::LW || op == RV32I::LBU || op
                    == RV32I::LHU {
                    append_reg(&mut s, self.rd);
                    s.append(",");
                    append_imm(&mut s, self.imm);
                    s.append("(");
                    append_reg(&mut s, self.rs1);
                    s.append(")");
                } else if self.instr.has_option() {
                    append_reg(&mut s, self.rd);
                    s.append(",");
                    append_reg(&mut s, self.rs1);
                    s.append(",");
                    append_shamt(&mut s, self.shamt);
                } else {
                    append_reg(&mut s, self.rd);
                    s.append(",");
                    append_reg(&mut s, self.rs1);
                    s.append(",");
                    append_imm(&mut s, self.imm);
                }
            },
            RVT::S => {
                append_reg(&mut s, self.rs2);
                s.append(", ");
                append_imm(&mut s, self.imm);
                s.append("(");
                append_reg(&mut s, self.rs1);
                s.append(")");
            },
            RVT::B => {
                append_reg(&mut s, self.rs1);
                s.append(",");
                append_reg(&mut s, self.rs2);
                s.append(",");
                append_imm(&mut s, self.imm);
            },
            _ => {
                append_reg(&mut s, self.rd);
                s.append(",");
                append_imm(&mut s, self.imm);
            },
        }
        assert(s@ =~= self.text());
        s
    }
}

fn append_reg(s: &mut String, r: Option<u8>)
    requires
        r matches Some(x) && x < 32,
    ensures
        final(s)@ == old(s)@ + opt_label(r),
{
    match r {
        Some(x) => s.append(get_register_label(x)),
        None => {},
    }
}

fn append_imm(s: &mut String, v: Option<i32>)
    ensures
        final(s)@ == old(s)@ + opt_decimal(v),
{
    match v {
        Some(x) => append_signed_decimal(s, x),
        None => {
            assert(s@ =~= s@ + opt_decimal(v));
        },
    }
}

fn append_shamt(s: &mut String, v: Option<u8>)
    ensures
        final(s)@ == old(s)@ + opt_shamt(v),
{
    match v {
        Some(x) => append_decimal(s, x as u32),
        None => {
            assert(s@ =~= s@ + opt_shamt(v));
        },
    }
}

/// Every word decodes to a well-formed instruction.
pub proof fn lemma_decode_wf(w: u32)
    ensures
        decode(w).wf(),
{
    lemma_field_bounds(w);
}

/// The single-instruction pseudo-instructions of the RISC-V assembly
/// language.
#[derive(Debug, Clone, Copy, PartialEq, Eq, Structural)]
pub enum PseudoCode {
    J,
    Ret,
    Jr,
    Nop,
    Jal,
    Jalr,
    Neg,
    Snez,
    Sgtz,
    Blez,
    Bgtz,
    Sltz,
    Beqz,
    Bnez,
    Bgez,
    Mv,
    Not,
    Seqz,
    Bgt,
    Ble,
    Bgtu,
    Bleu,
}

/// Lower-case name of a pseudo-instruction: left-aligned in eight columns
/// when operands follow it.
pub open spec fn pseudo_name(c: PseudoCode) -> Seq<char> {
    match c {
        PseudoCode::J => "j       "@,
        PseudoCode::Ret => "ret"@,
        PseudoCode::Jr => "jr      "@,
        PseudoCode::Nop => "nop"@,
        PseudoCode::Jal => "jal     "@,
        PseudoCode::Jalr => "jalr    "@,
        PseudoCode::Neg => "neg     "@,
        PseudoCode::Snez => "snez    "@,
        PseudoCode::Sgtz => "sgtz    "@,
        PseudoCode::Blez => "blez    "@,
        PseudoCode::Bgtz => "bgtz    "@,
        PseudoCode::Sltz => "sltz    "@,
        PseudoCode::Beqz => "beqz    "@,
        PseudoCode::Bnez => "bnez    "@,
        PseudoCode::Bgez => "bgez    "@,
        PseudoCode::Mv => "mv      "@,
        PseudoCode::Not => "not     "@,
        PseudoCode::Seqz => "seqz    "@,
        PseudoCode::Bgt => "bgt     "@,
        PseudoCode::Ble => "ble     "@,
        PseudoCode::Bgtu => "bgtu    "@,
        PseudoCode::Bleu => "bleu    "@,
    }
}

fn pseudo_name_str(c: PseudoCode) -> (r: &'static str)
    ensures
        r@ == pseudo_name(c),
{
    match c {
        PseudoCode::J => "j       ",
        PseudoCode::Ret => "ret",
        PseudoCode::Jr => "jr      ",
        PseudoCode::Nop => "nop",
        PseudoCode::Jal => "jal     ",
        PseudoCode::Jalr => "jalr    ",
        PseudoCode::Neg => "neg     ",
        PseudoCode::Snez => "snez    ",
        PseudoCode::Sgtz => "sgtz    ",
        PseudoCode::Blez => "blez    ",
        PseudoCode::Bgtz => "bgtz    ",
        PseudoCode::Sltz => "sltz    ",
        PseudoCode::Beqz => "beqz    ",
        PseudoCode::Bnez => "bnez    ",
        PseudoCode::Bgez => "bgez    ",
        PseudoCode::Mv => "mv      ",
        PseudoCode::Not => "not     ",
        PseudoCode::Seqz => "seqz    ",
        PseudoCode::Bgt => "bgt     ",
        PseudoCode::Ble => "ble     ",
        PseudoCode::Bgtu => "bgtu    ",
        PseudoCode::Bleu => "bleu    ",
    }
}

/// An instruction together with the pseudo-instruction that it reads as,
/// if any: the pseudo-instruction's name and operands.
#[derive(Debug, Clone, Copy)]
pub struct PseudoInstrWith1Instr {
    /// The instruction
    pub instr: Instruction,
    /// The pseudo-instruction, if the instruction reads as one
    pub code: Option<PseudoCode>,
    /// Destination register operand
    pub rd: Option<u8>,
    /// First register operand
    pub rs: Option<u8>,
    /// Second register operand
    pub rt: Option<u8>,
    /// Offset or immediate operand
    pub offset: Option<i32>,
}

/// The pseudo-instruction `code` with the given operands, read from `i`.
pub open spec fn pseudo_of(
    i: Instruction,
    code: PseudoCode,
    rd: Option<u8>,
    rs: Option<u8>,
    rt: Option<u8>,
    offset: Option<i32>,
) -> PseudoInstrWith1Instr {
    PseudoInstrWith1Instr { instr: i, code: Some(code), rd, rs, rt, offset }
}

/// What `i` reads as: the first row of the pseudo-instruction table that
/// matches it, or no pseudo-instruction.
pub open spec fn collapse(i: Instruction) -> PseudoInstrWith1Instr {
    let op = i.instr.instr_op;
    let rd0 = i.rd == Some(0u8);
    let rd1 = i.rd == Some(1u8);
    let rs1_0 = i.rs1 == Some(0u8);
    let rs2_0 = i.rs2 == Some(0u8);
    if rd0 && op == RV32I::JAL {
        pseudo_of(i, PseudoCode::J, None, None, None, i.imm)
    } else if rd0 && op == RV32I::JALR && i.rs1 == Some(1u8) && i.imm == Some(0i32) {
        pseudo_of(i, PseudoCode::Ret, None, None, None, None)
    } else if rd0 && op == RV32I::JALR {
        pseudo_of(i, PseudoCode::Jr, None, i.rs1, None, None)
    } else if rd0 && op == RV32I::ADDI && rs1_0 && i.imm == Some(0i32) {
        pseudo_of(i, PseudoCode::Nop, None, None, None, None)
    } else if rd1 && op == RV32I::JAL {
        pseudo_of(i, PseudoCode::Jal, None, None, None, i.imm)
    } else if rd1 && op == RV32I::JALR {
        pseudo_of(i, PseudoCode::Jalr, None, i.rs1, None, None)
    } else if rs2_0 && op == RV32I::SUB {
        pseudo_of(i, PseudoCode::Neg, i.rd, i.rs1, None, None)
    } else if rs2_0 && op == RV32I::SLTU {
        pseudo_of(i, PseudoCode::Snez, i.rd, i.rs1, None, None)
    } else if rs2_0 && op == RV32I::SLT {
        pseudo_of(i, PseudoCode::Sgtz, i.rd, i.rs1, None, None)
    } else if rs2_0 && op == RV32I::BGE {
        pseudo_of(i, PseudoCode::Blez, None, i.rs1, None, i.imm)
    } else if rs2_0 && op == RV32I::BLT {
        pseudo_of(i, PseudoCode::Bgtz, None, i.rs1, None, i.imm)
    } else if rs1_0 && op == RV32I::SLT {
        pseudo_of(i, PseudoCode::Sltz, i.rd, i.rs2, None, None)
    } else if rs1_0 && op == RV32I::BEQ {
        pseudo_of(i, PseudoCode::Beqz, None, i.rs2, None, i.imm)
    } else if rs1_0 && op == RV32I::BNE {
        pseudo_of(i, PseudoCode::Bnez, None, i.rs2, None, i.imm)
    } else if rs1_0 && (op == RV32I::BGE || op == RV32I::BLT) {
        pseudo_of(i, PseudoCode::Bgez, None, i.rs2, None, i.imm)
    } else if op == RV32I::ADDI && i.imm == Some(0i32) {
        pseudo_of(i, PseudoCode::Mv, i.rd, i.rs1, None, None)
    } else if op == RV32I::XORI && i.imm == Some(-1i32) {
        pseudo_of(i, PseudoCode::Not, i.rd, i.rs1, None, None)
    } else if op == RV32I::SLTIU && i.imm == Some(1i32) {
        pseudo_of(i, PseudoCode::Seqz, i.rd, i.rs1, None, None)
    } else if op == RV32I::BLT {
        pseudo_of(i, PseudoCode::Bgt, None, i.rs2, i.rs1, i.imm)
    } else if op == RV32I::BGE {
        pseudo_of(i, PseudoCode::Ble, None, i.rs2, i.rs1, i.imm)
    } else if op == RV32I::BLTU {
        pseudo_of(i, PseudoCode::Bgtu, None, i.rs2, i.rs1, i.imm)
    } else if op == RV32I::BGEU {
        pseudo_of(i, PseudoCode::Bleu, None, i.rs2, i.rs1, i.imm)
    } else {
        PseudoInstrWith1Instr { instr: i, code: None, rd: None, rs: None, rt: None, offset: None }
    }
}

fn reg_is(r: Option<u8>, v: u8) -> (b: bool)
    ensures
        b == (r == Some(v)),
{
    match r {
        Some(x) => x == v,
        None => false,
    }
}

fn imm_is(r: Option<i32>, v: i32) -> (b: bool)
    ensures
        b == (r == Some(v)),
{
    match r {
        Some(x) => x == v,
        None => false,
    }
}

/// The instruction of operation `op` with the given fields and no shift
/// amount.
pub open spec fn canonical(
    op: RV32I,
    rd: Option<u8>,
    rs1: Option<u8>,
    rs2: Option<u8>,
    imm: Option<i32>,
) -> Instruction {
    Instruction {
        instr: InstrType { instr_type: class_of_op(op), instr_op: op },
        rd,
        rs1,
        rs2,
        shamt: None,
        imm,
    }
}

/// A register operand that names one of the 32 registers.
pub open spec fn reg_ok(r: Option<u8>) -> bool {
    r matches Some(x) && x < 32
}

impl PseudoInstrWith1Instr {
    /// Each register operand that the pseudo-instruction shows names one of
    /// the 32 registers.
    pub open spec fn operands_ok(self) -> bool {
        match self.code {
            Some(PseudoCode::Jr) | Some(PseudoCode::Jalr) | Some(PseudoCode::Blez) | Some(
                PseudoCode::Bgtz,
            ) | Some(PseudoCode::Beqz) | Some(PseudoCode::Bnez) | Some(PseudoCode::Bgez) => reg_ok(
                self.rs,
            ),
            Some(PseudoCode::Neg) | Some(PseudoCode::Snez) | Some(PseudoCode::Sgtz) | Some(
                PseudoCode::Sltz,
            ) | Some(PseudoCode::Mv) | Some(PseudoCode::Not) | Some(PseudoCode::Seqz) => reg_ok(
                self.rd,
            ) && reg_ok(self.rs),
            Some(PseudoCode::Bgt) | Some(PseudoCode::Ble) | Some(PseudoCode::Bgtu) | Some(
                PseudoCode::Bleu,
            ) => reg_ok(self.rs) && reg_ok(self.rt),
            _ => true,
        }
    }

    /// Assembly text: the pseudo-instruction's name and operands, or the
    /// canonical text of the instruction when it reads as none.
    pub open spec fn text(self) -> Seq<char> {
        match self.code {
            None => self.instr.text(),
            Some(c) => match c {
                PseudoCode::Ret | PseudoCode::Nop => pseudo_name(c),
                PseudoCode::J | PseudoCode::Jal => pseudo_name(c) + opt_decimal(self.offset),
                PseudoCode::Jr | PseudoCode::Jalr => pseudo_name(c) + opt_label(self.rs),
                PseudoCode::Neg | PseudoCode::Snez | PseudoCode::Sgtz | PseudoCode::Sltz
                | PseudoCode::Mv | PseudoCode::Not | PseudoCode::Seqz => pseudo_name(c) + opt_label(
                    self.rd,
                ) + ","@ + opt_label(self.rs),
                PseudoCode::Blez | PseudoCode::Bgtz | PseudoCode::Beqz | PseudoCode::Bnez
                | PseudoCode::Bgez => pseudo_name(c) + opt_label(self.rs) + ","@ + opt_decimal(
                    self.offset,
                ),
                PseudoCode::Bgt | PseudoCode::Ble | PseudoCode::Bgtu | PseudoCode::Bleu =>
                    pseudo_name(c) + opt_label(self.rs) + ","@ + opt_label(self.rt) + ","@
                    + opt_decimal(self.offset),
            },
        }
    }

    /// The canonical instruction that the pseudo-instruction stands for,
    /// rebuilt from its name and operands alone; the instruction itself when
    /// it reads as no pseudo-instruction.
    pub open spec fn expanded(self) -> Instruction {
        match self.code {
            None => self.instr,
            Some(c) => match c {
                PseudoCode::J => canonical(RV32I::JAL, Some(0u8), None, None, self.offset),
                PseudoCode::Ret => canonical(RV32I::JALR, Some(0u8), Some(1u8), None, Some(0i32)),
                PseudoCode::Jr => canonical(RV32I::JALR, Some(0u8), self.rs, None, Some(0i32)),
                PseudoCode::Nop => canonical(RV32I::ADDI, Some(0u8), Some(0u8), None, Some(0i32)),
                PseudoCode::Jal => canonical(RV32I::JAL, Some(1u8), None, None, self.offset),
                PseudoCode::Jalr => canonical(RV32I::JALR, Some(1u8), self.rs, None, Some(0i32)),
                PseudoCode::Neg => canonical(RV32I::SUB, self.rd, self.rs, Some(0u8), None),
                PseudoCode::Snez => canonical(RV32I::SLTU, self.rd, self.rs, Some(0u8), None),
                PseudoCode::Sgtz => canonical(RV32I::SLT, self.rd, self.rs, Some(0u8), None),
                PseudoCode::Blez => canonical(RV32I::BGE, None, self.rs, Some(0u8), self.offset),
                PseudoCode::Bgtz => canonical(RV32I::BLT, None, self.rs, Some(0u8), self.offset),
                PseudoCode::Sltz => canonical(RV32I::SLT, self.rd, Some(0u8), self.rs, None),
                PseudoCode::Beqz => canonical(RV32I::BEQ, None, Some(0u8), self.rs, self.offset),
                PseudoCode::Bnez => canonical(RV32I::BNE, None, Some(0u8), self.rs, self.offset),
                PseudoCode::Bgez => canonical(RV32I::BGE, None, Some(0u8), self.rs, self.offset),
                PseudoCode::Mv => canonical(RV32I::ADDI, self.rd, self.rs, None, Some(0i32)),
                PseudoCode::Not => canonical(RV32I::XORI, self.rd, self.rs, None, Some(-1i32)),
                PseudoCode::Seqz => canonical(RV32I::SLTIU, self.rd, self.rs, None, Some(1i32)),
                PseudoCode::Bgt => canonical(RV32I::BLT, None, self.rt, self.rs, self.offset),
                PseudoCode::Ble => canonical(RV32I::BGE, None, self.rt, self.rs, self.offset),
                PseudoCode::Bgtu => canonical(RV32I::BLTU, None, self.rt, self.rs, self.offset),
                PseudoCode::Bleu => canonical(RV32I::BGEU, None, self.rt, self.rs, self.offset),
            },
        }
    }

    /// The canonical instruction that the pseudo-instruction stands for,
    /// rebuilt from its name and operands alone; the instruction itself when
    /// it reads as no pseudo-instruction.
    pub fn expand(&self) -> (r: Instruction)
        ensures
            r == self.expanded(),
    {
        let mk = |op: RV32I, rd: Option<u8>, rs1: Option<u8>, rs2: Option<u8>, imm: Option<i32>| -> (i: Instruction)
            ensures
                i == canonical(op, rd, rs1, rs2, imm),
            { Instruction { instr: InstrType { instr_type: op_class(op), instr_op: op }, rd, rs1, rs2, shamt: None, imm } };
        let c = match self.code {
            None => return self.instr,
            Some(c) => c,
        };
        match c {
            PseudoCode::J => mk(RV32I::JAL, Some(0), None, None, self.offset),
            PseudoCode::Ret => mk(RV32I::JALR, Some(0), Some(1), None, Some(0)),
            PseudoCode::Jr => mk(RV32I::JALR, Some(0), self.rs, None, Some(0)),
            PseudoCode::Nop => mk(RV32I::ADDI, Some(0), Some(0), None, Some(0)),
            PseudoCode::Jal => mk(RV32I::JAL, Some(1), None, None, self.offset),
            PseudoCode::Jalr => mk(RV32I::JALR, Some(1), self.rs, None, Some(0)),
            PseudoCode::Neg => mk(RV32I::SUB, self.rd, self.rs, Some(0), None),
            PseudoCode::Snez => mk(RV32I::SLTU, self.rd, self.rs, Some(0), None),
            PseudoCode::Sgtz => mk(RV32I::SLT, self.rd, self.rs, Some(0), None),
            PseudoCode::Blez => mk(RV32I::BGE, None, self.rs, Some(0), self.offset),
            PseudoCode::Bgtz => mk(RV32I::BLT, None, self.rs, Some(0), self.offset),
            PseudoCode::Sltz => mk(RV32I::SLT, self.rd, Some(0), self.rs, None),
            PseudoCode::Beqz => mk(RV32I::BEQ, None, Some(0), self.rs, self.offset),
            PseudoCode::Bnez => mk(RV32I::BNE, None, Some(0), self.rs, self.offset),
            PseudoCode::Bgez => mk(RV32I::BGE, None, Some(0), self.rs, self.offset),
            PseudoCode::Mv => mk(RV32I::ADDI, self.rd, self.rs, None, Some(0)),
            PseudoCode::Not => mk(RV32I::XORI, self.rd, self.rs, None, Some(-1)),
            PseudoCode::Seqz => mk(RV32I::SLTIU, self.rd, self.rs, None, Some(1)),
            PseudoCode::Bgt => mk(RV32I::BLT, None, self.rt, self.rs, self.offset),
            PseudoCode::Ble => mk(RV32I::BGE, None, self.rt, self.rs, self.offset),
            PseudoCode::Bgtu => mk(RV32I::BLTU, None, self.rt, self.rs, self.offset),
            PseudoCode::Bleu => mk(RV32I::BGEU, None, self.rt, self.rs, self.offset),
        }
    }

    /// Reads an instruction as a pseudo-instruction, by the first row of the
    /// pseudo-instruction table that matches it.
    pub fn new(instr_in: Instruction) -> (r: Self)
        ensures
            r == collapse(instr_in),
    {
        let rd_in = instr_in.get_rd();
        let rs1_in = instr_in.get_rs1();
        let rs2_in = instr_in.get_rs2();
        let offset_in = instr_in.get_imm();
        let instr_op = instr_in.instr.instr_op;
        let mk = |code: PseudoCode, rd: Option<u8>, rs: Option<u8>, rt: Option<u8>, offset: Option<i32>| -> (p: PseudoInstrWith1Instr)
            ensures
                p == pseudo_of(instr_in, code, rd, rs, rt, offset),
            { PseudoInstrWith1Instr { instr: instr_in, code: Some(code), rd, rs, rt, offset } };

        if reg_is(rd_in, 0) {
            match instr_op {
                RV32I::JAL => return mk(PseudoCode::J, None, None, None, offset_in),
                RV32I::JALR => {
                    if reg_is(rs1_in, 1) && imm_is(offset_in, 0) {
                        return mk(PseudoCode::Ret, None, None, None, None);
                    }
                    return mk(PseudoCode::Jr, None, rs1_in, None, None);
                },
                RV32I::ADDI => {
                    if reg_is(rs1_in, 0) && imm_is(offset_in, 0) {
                        return mk(PseudoCode::Nop, None, None, None, None);
                    }
                },
                _ => {},
            }
        }
        if reg_is(rd_in, 1) {
            match instr_op {
                RV32I::JAL => return mk(PseudoCode::Jal, None, None, None, offset_in),
                RV32I::JALR => return mk(PseudoCode::Jalr, None, rs1_in, None, None),
                _ => {},
            }
        }
        if reg_is(rs2_in, 0) {
            match instr_op {
                RV32I::SUB => return mk(PseudoCode::Neg, rd_in, rs1_in, None, None),
                RV32I::SLTU => return mk(PseudoCode::Snez, rd_in, rs1_in, None, None),
                RV32I::SLT => return mk(PseudoCode::Sgtz, rd_in, rs1_in, None, None),
                RV32I::BGE => return mk(PseudoCode::Blez, None, rs1_in, None, offset_in),
                RV32I::BLT => return mk(PseudoCode::Bgtz, None, rs1_in, None, offset_in),
                _ => {},
            }
        }
        if reg_is(rs1_in, 0) {
            match instr_op {
                RV32I::SLT => return mk(PseudoCode::Sltz, rd_in, rs2_in, None, None),
                RV32I::BEQ => return mk(PseudoCode::Beqz, None, rs2_in, None, offset_in),
                RV32I::BNE => return mk(PseudoCode::Bnez, None, rs2_in, None, offset_in),
                RV32I::BGE => return mk(PseudoCode::Bgez, None, rs2_in, None, offset_in),
                RV32I::BLT => return mk(PseudoCode::Bgez, None, rs2_in, None, offset_in),
                _ => {},
            }
        }
        if imm_is(offset_in, 0) && instr_op == RV32I::ADDI {
            return mk(PseudoCode::Mv, rd_in, rs1_in, None, None);
        }
        if imm_is(offset_in, -1) && instr_op == RV32I::XORI {
            return mk(PseudoCode::Not, rd_in, rs1_in, None, None);
        }
        if imm_is(offset_in, 1) && instr_op == RV32I::SLTIU {
            return mk(PseudoCode::Seqz, rd_in, rs1_in, None, None);
        }
        match instr_op {
            RV32I::BLT => mk(PseudoCode::Bgt, None, rs2_in, rs1_in, offset_in),
            RV32I::BGE => mk(PseudoCode::Ble, None, rs2_in, rs1_in, offset_in),
            RV32I::BLTU => mk(PseudoCode::Bgtu, None, rs2_in, rs1_in, offset_in),
            RV32I::BGEU => mk(PseudoCode::Bleu, None, rs2_in, rs1_in, offset_in),
            _ => PseudoInstrWith1Instr {
                instr: instr_in,
                code: None,
                rd: None,
                rs: None,
                rt: None,
                offset: None,
            },
        }
    }

    /// Whether the instruction reads as a pseudo-instruction.
    pub fn is_pseudo(&self) -> (r: bool)
        ensures
            r == self.code is Some,
    {
        self.code.is_some()
    }

    /// Assembly text: the pseudo-instruction's name and operands, or the
    /// canonical text of the instruction when it reads as none.
    pub fn disassembly(&self) -> (r: String)
        requires
            self.code is None ==> self.instr.renderable(),
            self.operands_ok(),
        ensures
            r@ == self.text(),
    {
        let c = match self.code {
            None => return self.instr.disassembly(),
            Some(c) => c,
        };
        let mut s = String::new();
        s.append(pseudo_name_str(c));
        match c {
            PseudoCode::Ret | PseudoCode::Nop => {},
            PseudoCode::J | PseudoCode::Jal => {
                append_imm(&mut s, self.offset);
            },
            PseudoCode::Jr | PseudoCode::Jalr => {
                append_reg(&mut s, self.rs);
            },
            PseudoCode::Neg | PseudoCode::Snez | PseudoCode::Sgtz | PseudoCode::Sltz
            | PseudoCode::Mv | PseudoCode::Not | PseudoCode::Seqz => {
                append_reg(&mut s, self.rd);
                s.append(",");
                append_reg(&mut s, self.rs);
            },
            PseudoCode::Blez | PseudoCode::Bgtz | PseudoCode::Beqz | PseudoCode::Bnez
            | PseudoCode::Bgez => {
                append_reg(&mut s, self.rs);
                s.append(",");
                append_imm(&mut s, self.offset);
            },
            PseudoCode::Bgt | PseudoCode::Ble | PseudoCode::Bgtu | PseudoCode::Bleu => {
                append_reg(&mut s, self.rs);
                s.append(",");
                append_reg(&mut s, self.rt);
                s.append(",");
                append_imm(&mut s, self.offset);
            },
        }
        assert(s@ =~= self.text());
        s
    }
}

/// A well-formed instruction can be rendered, and the operands of the
/// pseudo-instruction that it reads as name registers.
pub proof fn lemma_collapse_operands(i: Instruction)
    requires
        i.wf(),
    ensures
        i.renderable(),
        collapse(i).operands_ok(),
{
}

/// All invalid words decode to equal instructions, whatever their other
/// bits.
pub proof fn lemma_invalid_decodes_equal(w1: u32, w2: u32)
    requires
        decode(w1).is_invalid(),
        decode(w2).is_invalid(),
    ensures
        decode(w1).same_as(decode(w2)),
        decode(w1) == decode(w2),
{
}

} // verus!
