//! The 32 integer registers. Register 0 always reads as zero and ignores
//! writes; so does every index of 32 or more.

use vstd::prelude::*;

verus! {

/// Value that reading index `i` gives from registers `regs`: the register
/// for indices 1 to 31, zero for index 0 and for every index of 32 or more.
pub open spec fn read_value(regs: Seq<i32>, i: u8) -> i32 {
    if i == 0 || i >= 32 {
        0
    } else {
        regs[i as int]
    }
}

/// Registers `regs` after writing `v` to index `i`: unchanged when `i` is 0
/// or 32 or more.
pub open spec fn written(regs: Seq<i32>, i: u8, v: i32) -> Seq<i32> {
    if i != 0 && i < 32 {
        regs.update(i as int, v)
    } else {
        regs
    }
}

/// The register file: registers 1 to 31 (register 0 is hardwired to zero).
pub struct RegisterFile {
    registers: Vec<i32>,
}

impl View for RegisterFile {
    type V = Seq<i32>;

    /// The 32 registers, register 0 first.
    closed spec fn view(&self) -> Seq<i32> {
        seq![0i32] + self.registers@
    }
}

impl RegisterFile {
    /// Holds the 32 registers.
    pub open spec fn wf(&self) -> bool {
        self@.len() == 32
    }

    /// A register file whose registers all hold zero.
    pub fn new() -> (r: Self)
        ensures
            r.wf(),
            r@.len() == 32,
            forall|i: int| 0 <= i < 32 ==> #[trigger] r@[i] == 0,
    {
        RegisterFile { registers: vec![0i32; 31] }
    }

    /// Writes `data` to register `rsd`; ignored when `rsd` is 0 or 32 or
    /// more.
    pub fn write(&mut self, rsd: u8, data: i32)
        requires
            old(self).wf(),
        ensures
            final(self).wf(),
            final(self)@.len() == 32,
            final(self)@ == written(old(self)@, rsd, data),
    {
        if rsd != 0 && rsd < 32 {
            self.registers.set(rsd as usize - 1, data);
        }
        assert(self@ =~= if rsd != 0 && rsd < 32 {
            old(self)@.update(rsd as int, data)
        } else {
            old(self)@
        });
    }

    /// Reads registers `rs1` and `rs2` together; index 0 and every index of
    /// 32 or more read as zero.
    pub fn read(&self, rs1: u8, rs2: u8) -> (r: (i32, i32))
        requires
            self.wf(),
        ensures
            r == (read_value(self@, rs1), read_value(self@, rs2)),
            self@.len() == 32,
            self@[0] == 0,
    {
        let rs1_read = if rs1 == 0 || rs1 >= 32 {
            0
        } else {
            self.registers[rs1 as usize - 1]
        };
        let rs2_read = if rs2 == 0 || rs2 >= 32 {
            0
        } else {
            self.registers[rs2 as usize - 1]
        };
        (rs1_read, rs2_read)
    }
}

impl Default for RegisterFile {
    fn default() -> (r: Self)
        ensures
            r.wf(),
            forall|i: int| 0 <= i < 32 ==> #[trigger] r@[i] == 0,
    {
        RegisterFile::new()
    }
}

/// Register zero reads as zero after any write to it; a write to an index
/// from 1 to 31 reads back the value written; an index of 32 or more reads
/// as zero and a write to it changes nothing.
pub proof fn lemma_register_zero_identity(regs: Seq<i32>, v: i32, i: u8, j: u8)
    requires
        regs.len() == 32,
    ensures
        read_value(written(regs, 0, v), 0) == 0,
        read_value(written(regs, 0, v), j) == read_value(regs, j),
        0 < i < 32 ==> read_value(written(regs, i, v), i) == v,
        i >= 32 ==> written(regs, i, v) == regs && read_value(regs, i) == 0,
{
}

} // verus!
