//! The arithmetic-logic unit: the operation that each instruction asks of
//! it, and its evaluation over two 32-bit operands.

use crate::riscv::isa::RV32I;
use vstd::prelude::*;

verus! {

/// ALU operations.
#[derive(Debug, Clone, Copy, PartialEq, Eq, Structural)]
pub enum AluOpList {
    Add,
    Sub,
    Sll,
    Slt,
    Sltu,
    Xor,
    Srl,
    Sra,
    Or,
    And,
    Invalid,
}

/// An ALU operation and whether its second operand is the immediate.
#[derive(Debug, Clone, Copy, PartialEq, Eq, Structural)]
pub struct AluOp {
    /// The operation
    pub op: AluOpList,
    /// Whether the second operand is the immediate rather than the second
    /// register
    pub switch_2_imm: bool,
}

/// ALU operation of an instruction. Branches compare: BEQ and BNE subtract,
/// BLT and BGE compare signed, BLTU and BGEU unsigned.
pub open spec fn alu_op_list_of(instr: RV32I) -> AluOpList {
    match instr {
        RV32I::ADDI | RV32I::ADD => AluOpList::Add,
        RV32I::SLTI | RV32I::SLT | RV32I::BLT | RV32I::BGE => AluOpList::Slt,
        RV32I::SLTIU | RV32I::SLTU | RV32I::BLTU | RV32I::BGEU => AluOpList::Sltu,
        RV32I::XORI | RV32I::XOR => AluOpList::Xor,
        RV32I::ORI | RV32I::OR => AluOpList::Or,
        RV32I::ANDI | RV32I::AND => AluOpList::And,
        RV32I::SLLI | RV32I::SLL => AluOpList::Sll,
        RV32I::SRLI | RV32I::SRL => AluOpList::Srl,
        RV32I::SRAI | RV32I::SRA => AluOpList::Sra,
        RV32I::SUB | RV32I::BEQ | RV32I::BNE => AluOpList::Sub,
        _ => AluOpList::Invalid,
    }
}

/// The register-immediate arithmetic instructions, whose second operand is
/// the immediate.
pub open spec fn uses_immediate(instr: RV32I) -> bool {
    match instr {
        RV32I::ADDI | RV32I::SLTI | RV32I::SLTIU | RV32I::XORI | RV32I::ORI | RV32I::ANDI
        | RV32I::SLLI | RV32I::SRLI | RV32I::SRAI => true,
        _ => false,
    }
}

/// ALU operation of an instruction, with its choice of second operand.
pub open spec fn alu_op_of(instr: RV32I) -> AluOp {
    AluOp { op: alu_op_list_of(instr), switch_2_imm: uses_immediate(instr) }
}

/// Value of operation `op` on `a` and `b`, in two's complement with
/// wrap-around; shifts use the low five bits of `b`.
pub open spec fn alu_value(a: i32, b: i32, op: AluOpList) -> i32 {
    match op {
        AluOpList::Add => (a + b) as i32,
        AluOpList::Sub => (a - b) as i32,
        AluOpList::Sll => a << ((b & 0x1f) as u32),
        AluOpList::Slt => if a < b {
            1i32
        } else {
            0i32
        },
        AluOpList::Sltu => if (a as u32) < (b as u32) {
            1i32
        } else {
            0i32
        },
        AluOpList::Xor => a ^ b,
        AluOpList::Srl => ((a as u32) >> ((b & 0x1f) as u32)) as i32,
        AluOpList::Sra => a >> ((b & 0x1f) as u32),
        AluOpList::Or => a | b,
        AluOpList::And => a & b,
        AluOpList::Invalid => -1i32,
    }
}

/// Result of the ALU on operands `a` and `b` and immediate `imm`.
pub open spec fn alu_result(a: i32, b: i32, imm: i32, op: AluOp) -> i32 {
    alu_value(a, if op.switch_2_imm { imm } else { b }, op.op)
}

/// Performs an ALU operation on `op_a` and either `op_b` or `imm`, as `op`
/// selects.
pub fn alu(op_a: i32, op_b: i32, imm: i32, op: &AluOp) -> (r: i32)
    ensures
        r == alu_result(op_a, op_b, imm, *op),
{
    let operand_b = if op.switch_2_imm {
        imm
    } else {
        op_b
    };
    assert(0 <= operand_b & 0x1f < 32) by (bit_vector);
    let shift = (operand_b & 0x1f) as u32;
    match op.op {
        AluOpList::Add => (op_a as i64 + operand_b as i64) as i32,
        AluOpList::Sub => (op_a as i64 - operand_b as i64) as i32,
        AluOpList::Sll => {
            let r = ((op_a as u32) << shift) as i32;
            assert(((op_a as u32) << shift) as i32 == op_a << shift) by (bit_vector)
                requires
                    shift < 32,
            ;
            r
        },
        AluOpList::Slt => if op_a < operand_b {
            1
        } else {
            0
        },
        AluOpList::Sltu => if (op_a as u32) < (operand_b as u32) {
            1
        } else {
            0
        },
        AluOpList::Xor => op_a ^ operand_b,
        AluOpList::Srl => ((op_a as u32) >> shift) as i32,
        AluOpList::Sra => op_a >> shift,
        AluOpList::Or => op_a | operand_b,
        AluOpList::And => op_a & operand_b,
        AluOpList::Invalid => -1,
    }
}

impl From<RV32I> for AluOpList {
    fn from(instr: RV32I) -> Self {
        match instr {
            RV32I::ADDI | RV32I::ADD => AluOpList::Add,
            RV32I::SLTI | RV32I::SLT | RV32I::BLT | RV32I::BGE => AluOpList::Slt,
            RV32I::SLTIU | RV32I::SLTU | RV32I::BLTU | RV32I::BGEU => AluOpList::Sltu,
            RV32I::XORI | RV32I::XOR => AluOpList::Xor,
            RV32I::ORI | RV32I::OR => AluOpList::Or,
            RV32I::ANDI | RV32I::AND => AluOpList::And,
            RV32I::SLLI | RV32I::SLL => AluOpList::Sll,
            RV32I::SRLI | RV32I::SRL => AluOpList::Srl,
            RV32I::SRAI | RV32I::SRA => AluOpList::Sra,
            RV32I::SUB | RV32I::BEQ | RV32I::BNE => AluOpList::Sub,
            _ => AluOpList::Invalid,
        }
    }
}

impl vstd::std_specs::convert::FromSpecImpl<RV32I> for AluOpList {
    open spec fn obeys_from_spec() -> bool {
        true
    }

    open spec fn from_spec(v: RV32I) -> Self {
        alu_op_list_of(v)
    }
}

impl From<RV32I> for AluOp {
    fn from(instr: RV32I) -> Self {
        let switch_2_imm = match instr {
            RV32I::ADDI | RV32I::SLTI | RV32I::SLTIU | RV32I::XORI | RV32I::ORI | RV32I::ANDI
            | RV32I::SLLI | RV32I::SRLI | RV32I::SRAI => true,
            _ => false,
        };
        let op = AluOpList::from(instr);
        AluOp { op, switch_2_imm }
    }
}

impl vstd::std_specs::convert::FromSpecImpl<RV32I> for AluOp {
    open spec fn obeys_from_spec() -> bool {
        true
    }

    open spec fn from_spec(v: RV32I) -> Self {
        alu_op_of(v)
    }
}

/// Shifts use only the low five bits of the shift amount.
pub proof fn lemma_shift_amount_truncated(a: i32, b: i32, op: AluOpList)
    requires
        op == AluOpList::Sll || op == AluOpList::Srl || op == AluOpList::Sra,
    ensures
        alu_value(a, b, op) == alu_value(a, b & 0x1f, op),
{
    assert((b & 0x1f) & 0x1f == b & 0x1f) by (bit_vector);
}

/// The arithmetic right shift is the signed shift by the low five bits of
/// the amount, and keeps the sign of the shifted value.
pub proof fn lemma_sra_keeps_sign(a: i32, b: i32)
    ensures
        alu_value(a, b, AluOpList::Sra) == a >> ((b & 0x1f) as u32),
        (alu_value(a, b, AluOpList::Sra) < 0) == (a < 0),
{
    assert(0 <= b & 0x1f < 32) by (bit_vector);
    let s = (b & 0x1f) as u32;
    assert((a >> s < 0) == (a < 0)) by (bit_vector)
        requires
            s < 32,
    ;
}

} // verus!
