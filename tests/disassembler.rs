use adept_lib::disassembler::{byte_in_char, disassemble_word, instruction_word};
use adept_lib::mem::Memory;
use adept_lib::riscv::decoder::{Instruction, PseudoCode, PseudoInstrWith1Instr};
use adept_lib::riscv::isa::{InstrType, RV32I, RVT};
use adept_lib::simulator::next_instruction;

#[test]
fn disassembler_byte_to_char_test() {
    assert_eq!('.', byte_in_char(128));
    assert_eq!('a', byte_in_char(97));
    assert_eq!('A', byte_in_char(65));
}

#[test]
fn byte_in_char_printable_bounds() {
    assert_eq!('.', byte_in_char(31));
    assert_eq!(' ', byte_in_char(32));
    assert_eq!('~', byte_in_char(126));
    assert_eq!('.', byte_in_char(127));
    assert_eq!('.', byte_in_char(0));
}

#[test]
fn decode_addi_scenario() {
    let inst = Instruction::new(0x00f1_8213);
    assert_eq!(inst.get_instr(), InstrType { instr_type: RVT::I, instr_op: RV32I::ADDI });
    assert_eq!(inst.get_rd(), Some(4));
    assert_eq!(inst.get_rs1(), Some(3));
    assert_eq!(inst.get_rs2(), None);
    assert_eq!(inst.get_imm(), Some(15));
    assert_eq!(inst.get_shamt(), None);
    assert_eq!(inst.disassembly(), "addi    tp,gp,15");
}

#[test]
fn decode_addi_negative_scenario() {
    let inst = Instruction::new(0xff11_8213);
    assert_eq!(inst.get_instr().instr_op, RV32I::ADDI);
    assert_eq!((inst.get_rd(), inst.get_rs1(), inst.get_imm()), (Some(4), Some(3), Some(-15)));
    assert_eq!(inst.disassembly(), "addi    tp,gp,-15");
}

#[test]
fn decode_srai_scenario() {
    let inst = Instruction::new(0x4061_d213);
    assert_eq!(inst.get_instr().instr_op, RV32I::SRAI);
    assert_eq!((inst.get_rd(), inst.get_rs1(), inst.get_shamt()), (Some(4), Some(3), Some(6)));
    assert_eq!(inst.get_imm(), None);
    assert_eq!(inst.disassembly(), "srai    tp,gp,6");
}

#[test]
fn decode_jal_scenario() {
    let inst = Instruction::new(0xf79f_f0ef);
    assert_eq!(inst.get_instr(), InstrType { instr_type: RVT::J, instr_op: RV32I::JAL });
    assert_eq!((inst.get_rd(), inst.get_imm()), (Some(1), Some(-136)));
    assert_eq!(inst.disassembly(), "jal     ra,-136");
    let pseudo = PseudoInstrWith1Instr::new(inst);
    assert!(pseudo.is_pseudo());
    assert_eq!(pseudo.disassembly(), "jal     -136");
}

#[test]
fn decode_invalid_words_are_equal() {
    // Opcode 0 and opcode 0x7f are unassigned.
    let a = Instruction::new(0);
    let b = Instruction::new(0xffff_ffff);
    for x in [a, b] {
        assert!(!x.is_valid());
        assert_eq!(x, a);
        assert_eq!(x.get_rd(), None);
        assert_eq!(x.disassembly(), "Invalid!");
    }
    assert_ne!(a, Instruction::new(0x00f1_8213));
}

#[test]
fn decode_unassigned_funct3_keeps_class() {
    // A known opcode fixes the class even where funct3 names no operation.
    let branch = Instruction::new(0x0000_2063);
    assert!(branch.is_valid());
    assert_eq!(branch.get_instr(), InstrType { instr_type: RVT::B, instr_op: RV32I::Invalid });
    assert_eq!((branch.get_rs1(), branch.get_rs2(), branch.get_imm()), (Some(0), Some(0), Some(0)));
    let load = Instruction::new(0x0000_3003);
    assert!(load.is_valid());
    assert_eq!(load.get_instr(), InstrType { instr_type: RVT::I, instr_op: RV32I::Invalid });
    assert_eq!(load.get_rd(), Some(0));
    let jalr = Instruction::new(0x0000_1067);
    assert!(jalr.is_valid());
    assert_eq!(jalr.get_instr(), InstrType { instr_type: RVT::I, instr_op: RV32I::Invalid });
    assert_ne!(jalr, Instruction::new(0));
    assert_eq!(jalr.disassembly(), "invalid zero,zero,0");
    assert!(!PseudoInstrWith1Instr::new(jalr).is_pseudo());
    let store = Instruction::new(0x0000_7023);
    assert_eq!(store.get_instr(), InstrType { instr_type: RVT::S, instr_op: RV32I::Invalid });
}

#[test]
fn canonical_text_of_each_class() {
    assert_eq!(Instruction::new(0x4023_0233).disassembly(), "sub     tp,t1,sp");
    assert_eq!(Instruction::new(0x0023_2203).disassembly(), "lw      tp,2(t1)");
    assert_eq!(Instruction::new(0xfe43_0f23).disassembly(), "sb      tp, -2(t1)");
    assert_eq!(Instruction::new(0xfe97_82e3).disassembly(), "beq     a5,s1,-28");
    assert_eq!(Instruction::new(0xdead_0737).disassembly(), "lui     a4,-559087616");
    assert_eq!(Instruction::new(0x0000_0097).disassembly(), "auipc   ra,0");
    assert_eq!(Instruction::new(0x0000_8067).disassembly(), "jalr    zero,ra,0");
    assert_eq!(Instruction::new(0x0004_0413).disassembly(), "addi    s0/fp,s0/fp,0");
}

#[test]
fn pseudo_instruction_forms() {
    let text = |w: u32| disassemble_word(w);
    // jal x0, -8
    assert_eq!(text(0xff9f_f06f), "j       -8");
    // jalr x0, 0(ra)
    assert_eq!(text(0x0000_8067), "ret");
    // jalr x0, 0(t0)
    assert_eq!(text(0x0002_8067), "jr      t0");
    // jalr x0, 4(ra): not ret, so jr
    assert_eq!(text(0x0040_8067), "jr      ra");
    // addi x0, x0, 0
    assert_eq!(text(0x0000_0013), "nop");
    // jalr ra, 0(a5)
    assert_eq!(text(0x0007_80e7), "jalr    a5");
    // sub a0, a1, x0
    assert_eq!(text(0x4005_8533), "neg     a0,a1");
    // sltu a0, a1, x0
    assert_eq!(text(0x0005_b533), "snez    a0,a1");
    // slt a0, a1, x0
    assert_eq!(text(0x0005_a533), "sgtz    a0,a1");
    // bge a1, x0, 8
    assert_eq!(text(0x0005_d463), "blez    a1,8");
    // blt a1, x0, 8
    assert_eq!(text(0x0005_c463), "bgtz    a1,8");
    // slt a0, x0, a1
    assert_eq!(text(0x00b0_2533), "sltz    a0,a1");
    // beq x0, a3, 8
    assert_eq!(text(0x00d0_0463), "beqz    a3,8");
    // bne x0, a1, -20
    assert_eq!(text(0xfeb0_16e3), "bnez    a1,-20");
    // bge x0, a0, -16
    assert_eq!(text(0xfea0_58e3), "bgez    a0,-16");
    // blt x0, a1, 20 reads as bgez as well
    assert_eq!(text(0x00b0_4a63), "bgez    a1,20");
    // beq a3, x0, 8 and bne a1, x0, -20 have no pseudo-instruction
    assert_eq!(text(0x0006_8463), "beq     a3,zero,8");
    assert_eq!(text(0xfe05_96e3), "bne     a1,zero,-20");
    // bge a0, x0, -16 and blt a1, x0, 20
    assert_eq!(text(0xfe05_58e3), "blez    a0,-16");
    assert_eq!(text(0x0005_ca63), "bgtz    a1,20");
    // addi a0, a1, 0
    assert_eq!(text(0x0005_8513), "mv      a0,a1");
    // xori a0, a1, -1
    assert_eq!(text(0xfff5_c513), "not     a0,a1");
    // sltiu a0, a1, 1
    assert_eq!(text(0x0015_b513), "seqz    a0,a1");
    // blt a0, a1, -8
    assert_eq!(text(0xfeb5_4ce3), "bgt     a1,a0,-8");
    // bge a0, a1, 8
    assert_eq!(text(0x00b5_5463), "ble     a1,a0,8");
    // bltu a0, a1, -8
    assert_eq!(text(0xfeb5_6ce3), "bgtu    a1,a0,-8");
    // bgeu a0, a1, 16
    assert_eq!(text(0x00b5_7863), "bleu    a1,a0,16");
    // add tp, t1, sp: no pseudo-instruction
    assert_eq!(text(0x0023_0233), "add     tp,t1,sp");
    assert!(!PseudoInstrWith1Instr::new(Instruction::new(0x0023_0233)).is_pseudo());
    assert_eq!(text(0), "Invalid!");
}

#[test]
fn pseudo_expansion_re_decodes() {
    for w in [
        0xff9f_f06fu32, 0x0000_8067, 0x0002_8067, 0x0000_0013, 0x0007_80e7, 0x4005_8533,
        0x0005_b533, 0x0005_a533, 0x0005_d463, 0x0005_c463, 0x00b0_2533, 0x00d0_0463,
        0xfeb0_16e3, 0xfea0_58e3, 0x0005_8513, 0xfff5_c513, 0x0015_b513, 0xfeb5_4ce3,
        0x00b5_5463, 0xfeb5_6ce3, 0x00b5_7863, 0xf79f_f0ef,
    ] {
        let inst = Instruction::new(w);
        let pseudo = PseudoInstrWith1Instr::new(inst);
        assert!(pseudo.is_pseudo());
        let back = pseudo.expand();
        assert_eq!(back, inst);
        assert_eq!(Instruction::new(back.encode()), inst);
    }
}

#[test]
fn pseudo_code_of_jal() {
    let pseudo = PseudoInstrWith1Instr::new(Instruction::new(0xff9f_f06f));
    assert_eq!(pseudo.code, Some(PseudoCode::J));
    assert_eq!(pseudo.offset, Some(-8));
}

#[test]
fn instruction_word_is_little_endian() {
    let bytes = vec![0x00, 0x13, 0x82, 0xf1, 0x00];
    assert_eq!(instruction_word(&bytes, 1), 0x00f1_8213);
}

#[test]
fn simulator_halts_on_zeroed_memory() {
    let mem = Box::new(Memory::new());
    assert_eq!(mem.read_pc(0), 0);
    assert!(next_instruction(&mem, 0).is_none());
}

#[test]
fn simulator_steps_through_program() {
    let mut mem = Box::new(Memory::new());
    mem.load_chunk(0, &vec![0x13, 0x82, 0xf1, 0x00, 0x13, 0x82, 0x11, 0xff]);
    let first = next_instruction(&mem, 0).unwrap();
    assert_eq!(first, Instruction::new(0x00f1_8213));
    let second = next_instruction(&mem, 4).unwrap();
    assert_eq!(second.get_imm(), Some(-15));
    assert!(next_instruction(&mem, 8).is_none());
}
