//! One step of the fetch-decode loop: the instruction at the program
//! counter, or the halt condition.

use crate::mem::{word_at, Memory};
use crate::riscv::decoder::{decode, Instruction};
use vstd::prelude::*;

verus! {

/// What the loop finds at `pc` in memory contents `m`: the decoded
/// instruction, or `None` (halt) when it is invalid.
pub open spec fn step_result(m: Seq<u8>, pc: u32) -> Option<Instruction> {
    let inst = decode(word_at(m, pc));
    if inst.is_invalid() {
        None
    } else {
        Some(inst)
    }
}

/// Fetches and decodes the instruction at `pc`: `None` when it is invalid,
/// which halts the loop.
pub fn next_instruction(mem: &Memory, pc: u32) -> (r: Option<Instruction>)
    requires
        mem.wf(),
    ensures
        r == step_result(mem@, pc),
{
    let word = mem.read_pc(pc);
    let inst = Instruction::new(word);
    if inst.is_valid() {
        Some(inst)
    } else {
        None
    }
}

} // verus!
