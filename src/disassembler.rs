//! Disassembly of instruction words read from a program image.

use crate::mem::le_word;
use crate::riscv::decoder::{
    collapse, decode, lemma_collapse_operands, lemma_decode_wf, Instruction, PseudoInstrWith1Instr,
};
use vstd::prelude::*;

verus! {

/// Character shown for byte `b` in the ASCII column: the byte itself when
/// it is printable ASCII (32 to 126), otherwise a dot.
pub open spec fn shown_char(b: u8) -> char {
    if 32 <= b <= 126 {
        b as char
    } else {
        '.'
    }
}

/// Character shown for a byte in the ASCII column: the byte itself when it
/// is printable ASCII (32 to 126), otherwise a dot.
pub fn byte_in_char(byte_in: u8) -> (r: char)
    ensures
        r == shown_char(byte_in),
{
    if byte_in > 126 || byte_in < 32 {
        '.'
    } else {
        byte_in as char
    }
}

/// The instruction word stored little-endian at `offset` in `contents`.
pub fn instruction_word(contents: &Vec<u8>, offset: usize) -> (r: u32)
    requires
        offset + 4 <= contents@.len(),
    ensures
        r == le_word(
            contents@[offset as int],
            contents@[offset + 1],
            contents@[offset + 2],
            contents@[offset + 3],
        ),
{
    let len = contents.len();
    assert(offset + 4 <= len);
    let b0 = contents[offset] as u32;
    let b1 = contents[offset + 1] as u32;
    let b2 = contents[offset + 2] as u32;
    let b3 = contents[offset + 3] as u32;
    b0 + b1 * 0x100 + b2 * 0x1_0000 + b3 * 0x100_0000
}

/// Assembly text of the instruction word `word`: the pseudo-instruction it
/// reads as, or its canonical form.
pub fn disassemble_word(word: u32) -> (r: String)
    ensures
        r@ == collapse(decode(word)).text(),
{
    let inst = Instruction::new(word);
    proof {
        lemma_decode_wf(word);
        lemma_collapse_operands(decode(word));
    }
    let pseudo = PseudoInstrWith1Instr::new(inst);
    pseudo.disassembly()
}

} // verus!
