//! Flat byte-addressable memory of 2^21 bytes, little-endian, with typed
//! loads and stores and instruction fetch. Every address is reduced to its
//! low 21 bits before use.

use crate::riscv::decoder::sext;
use crate::riscv::isa::RV32I;
use vstd::prelude::*;

verus! {

/// Number of bytes of the memory.
pub const MEMORY_SIZE: usize = 0x20_0000;

/// Mask of the address bits that the memory decodes.
pub const ADDR_MASK: u32 = 0x1f_ffff;

/// The address `addr` reduced to the memory's window.
pub open spec fn masked(addr: u32) -> int {
    (addr & ADDR_MASK) as int
}

/// Index of the `k`-th byte from `addr` onwards, wrapping round the window.
pub open spec fn byte_index(addr: u32, k: int) -> int {
    (masked(addr) + k) % (MEMORY_SIZE as int)
}

/// The 32-bit word whose bytes, least significant first, are `b0`..`b3`.
pub open spec fn le_word(b0: u8, b1: u8, b2: u8, b3: u8) -> u32 {
    (b0 as int + b1 as int * 0x100 + b2 as int * 0x1_0000 + b3 as int * 0x100_0000) as u32
}

/// The word stored little-endian at `addr`.
pub open spec fn word_at(m: Seq<u8>, addr: u32) -> u32 {
    le_word(m[byte_index(addr, 0)], m[byte_index(addr, 1)], m[byte_index(addr, 2)], m[byte_index(addr, 3)])
}

/// The unsigned half-word stored little-endian at `addr`.
pub open spec fn half_at(m: Seq<u8>, addr: u32) -> int {
    m[byte_index(addr, 0)] as int + m[byte_index(addr, 1)] as int * 0x100
}

/// Byte `k` (0 is the least significant) of `data`.
pub open spec fn byte_of(data: u32, k: int) -> u8 {
    if k == 0 {
        (data & 0xff) as u8
    } else if k == 1 {
        ((data >> 8) & 0xff) as u8
    } else if k == 2 {
        ((data >> 16) & 0xff) as u8
    } else {
        ((data >> 24) & 0xff) as u8
    }
}

/// Memory load operations.
#[derive(Debug, Clone, Copy, PartialEq, Eq, Structural)]
pub enum MemLoadOp {
    LoadByte,
    LoadHalf,
    LoadWord,
    LoadByteUnsigned,
    LoadHalfUnsigned,
    InvalidLoad,
}

/// Memory store operations.
#[derive(Debug, Clone, Copy, PartialEq, Eq, Structural)]
pub enum MemStoreOp {
    StoreByte,
    StoreHalf,
    StoreWord,
    InvalidStore,
}

/// Load operation of an instruction: `InvalidLoad` for all but the loads.
pub open spec fn load_op_of(instr: RV32I) -> MemLoadOp {
    match instr {
        RV32I::LB => MemLoadOp::LoadByte,
        RV32I::LH => MemLoadOp::LoadHalf,
        RV32I::LW => MemLoadOp::LoadWord,
        RV32I::LBU => MemLoadOp::LoadByteUnsigned,
        RV32I::LHU => MemLoadOp::LoadHalfUnsigned,
        _ => MemLoadOp::InvalidLoad,
    }
}

/// Store operation of an instruction: `InvalidStore` for all but the stores.
pub open spec fn store_op_of(instr: RV32I) -> MemStoreOp {
    match instr {
        RV32I::SB => MemStoreOp::StoreByte,
        RV32I::SH => MemStoreOp::StoreHalf,
        RV32I::SW => MemStoreOp::StoreWord,
        _ => MemStoreOp::InvalidStore,
    }
}

/// A load that may be performed: a valid operation at an address aligned to
/// its width (two bytes for half-words, four for words).
pub open spec fn load_allowed(op: MemLoadOp, addr: u32) -> bool {
    match op {
        MemLoadOp::LoadHalf | MemLoadOp::LoadHalfUnsigned => addr % 2 == 0,
        MemLoadOp::LoadWord => addr % 4 == 0,
        MemLoadOp::InvalidLoad => false,
        _ => true,
    }
}

/// A store that may be performed: a valid operation at an address aligned
/// to its width.
pub open spec fn store_allowed(op: MemStoreOp, addr: u32) -> bool {
    match op {
        MemStoreOp::StoreHalf => addr % 2 == 0,
        MemStoreOp::StoreWord => addr % 4 == 0,
        MemStoreOp::InvalidStore => false,
        _ => true,
    }
}

/// Value that load `op` at `addr` reads from memory contents `m`: bytes and
/// half-words sign- or zero-extended, words as they are.
pub open spec fn load_value(m: Seq<u8>, op: MemLoadOp, addr: u32) -> i32 {
    match op {
        MemLoadOp::LoadByte => sext(m[byte_index(addr, 0)] as int, 0x80) as i32,
        MemLoadOp::LoadHalf => sext(half_at(m, addr), 0x8000) as i32,
        MemLoadOp::LoadWord => word_at(m, addr) as i32,
        MemLoadOp::LoadByteUnsigned => m[byte_index(addr, 0)] as i32,
        MemLoadOp::LoadHalfUnsigned => half_at(m, addr) as i32,
        MemLoadOp::InvalidLoad => 0,
    }
}

/// Memory contents after store `op` of `data` at `addr` on contents `m`:
/// the low byte, half-word or word of `data`, least significant byte at
/// `addr`.
pub open spec fn store_result(m: Seq<u8>, op: MemStoreOp, addr: u32, data: u32) -> Seq<u8> {
    match op {
        MemStoreOp::StoreByte => m.update(byte_index(addr, 0), byte_of(data, 0)),
        MemStoreOp::StoreHalf => m.update(byte_index(addr, 0), byte_of(data, 0)).update(
            byte_index(addr, 1),
            byte_of(data, 1),
        ),
        MemStoreOp::StoreWord => m.update(byte_index(addr, 0), byte_of(data, 0)).update(
            byte_index(addr, 1),
            byte_of(data, 1),
        ).update(byte_index(addr, 2), byte_of(data, 2)).update(
            byte_index(addr, 3),
            byte_of(data, 3),
        ),
        MemStoreOp::InvalidStore => m,
    }
}

/// Memory contents `m` after the first `n` bytes of `bytes` have been
/// stored one by one from address `base` onwards.
pub open spec fn loaded(m: Seq<u8>, base: u32, bytes: Seq<u8>, n: nat) -> Seq<u8>
    decreases n,
{
    if n == 0 {
        m
    } else {
        loaded(m, base, bytes, (n - 1) as nat).update(byte_index(base, n - 1), bytes[n - 1])
    }
}

/// The memory: 2^21 bytes.
#[derive(Debug)]
pub struct Memory {
    data: Vec<u8>,
}

impl View for Memory {
    type V = Seq<u8>;

    closed spec fn view(&self) -> Seq<u8> {
        self.data@
    }
}

proof fn lemma_index_wraps(a: u32, k: u32)
    requires
        k < 4,
    ensures
        a & ADDR_MASK < 0x20_0000,
        ((a & ADDR_MASK) + k) as u32 & ADDR_MASK == ((a & ADDR_MASK) + k) % 0x20_0000,
{
    assert(a & 0x1f_ffff < 0x20_0000) by (bit_vector);
    let m = a & 0x1f_ffff;
    assert(((m + k) as u32) & 0x1f_ffff == (m + k) % 0x20_0000) by (bit_vector)
        requires
            k < 4,
            m < 0x20_0000,
    ;
}

proof fn lemma_bytes_of(data: u32)
    ensures
        data & 0xff < 0x100,
        (data >> 8) & 0xff < 0x100,
        (data >> 16) & 0xff < 0x100,
        (data >> 24) & 0xff < 0x100,
{
    assert(data & 0xff < 0x100) by (bit_vector);
    assert((data >> 8) & 0xff < 0x100) by (bit_vector);
    assert((data >> 16) & 0xff < 0x100) by (bit_vector);
    assert((data >> 24) & 0xff < 0x100) by (bit_vector);
}

impl Memory {
    /// Holds exactly 2^21 bytes.
    pub open spec fn wf(&self) -> bool {
        self@.len() == MEMORY_SIZE
    }

    /// A memory whose bytes are all zero.
    pub fn new() -> (r: Self)
        ensures
            r.wf(),
            forall|i: int| 0 <= i < MEMORY_SIZE ==> #[trigger] r@[i] == 0,
    {
        Memory { data: vec![0u8; MEMORY_SIZE] }
    }

    /// Reduces an address to the memory's window: its low 21 bits.
    pub fn mask_addr(addr: u32) -> (r: usize)
        ensures
            r == addr & ADDR_MASK,
            r == masked(addr),
            r < MEMORY_SIZE,
    {
        proof {
            lemma_index_wraps(addr, 0);
        }
        (addr & ADDR_MASK) as usize
    }

    /// Index of the `k`-th byte from `addr` onwards.
    fn index(addr: u32, k: u32) -> (r: usize)
        requires
            k < 4,
        ensures
            r == byte_index(addr, k as int),
            r < MEMORY_SIZE,
    {
        proof {
            lemma_index_wraps(addr, k);
        }
        let m = addr & ADDR_MASK;
        ((m + k) & ADDR_MASK) as usize
    }

    /// Byte at index `addr` of the memory.
    fn get_data(&self, addr: usize) -> (r: u8)
        requires
            self.wf(),
            addr < MEMORY_SIZE,
        ensures
            r == self@[addr as int],
    {
        self.data[addr]
    }

    /// Writes `data` at index `addr` of the memory.
    fn put_data(&mut self, addr: usize, data: u8)
        requires
            old(self).wf(),
            addr < MEMORY_SIZE,
        ensures
            final(self)@ == old(self)@.update(addr as int, data),
    {
        self.data.set(addr, data);
    }

    /// Copies `contents` into memory one byte at a time, from address `base`
    /// onwards.
    pub fn load_chunk(&mut self, base: u32, contents: &Vec<u8>)
        requires
            old(self).wf(),
        ensures
            final(self).wf(),
            final(self)@ == loaded(old(self)@, base, contents@, contents@.len()),
    {
        let mut idx = Self::mask_addr(base);
        let mut i: usize = 0;
        while i < contents.len()
            invariant
                self.wf(),
                i <= contents@.len(),
                idx < MEMORY_SIZE,
                idx == byte_index(base, i as int),
                self@ == loaded(old(self)@, base, contents@, i as nat),
            decreases contents@.len() - i,
        {
            self.put_data(idx, contents[i]);
            proof {
                let ghost m = masked(base);
                assert(0 <= m);
                assert(((m + i) % 0x20_0000 + 1) % 0x20_0000 == (m + i + 1) % 0x20_0000) by {
                    vstd::arithmetic::div_mod::lemma_add_mod_noop(m + i, 1, 0x20_0000);
                    vstd::arithmetic::div_mod::lemma_small_mod(1, 0x20_0000);
                }
            }
            idx = if idx + 1 == MEMORY_SIZE {
                0
            } else {
                idx + 1
            };
            i = i + 1;
        }
    }

    /// Fetches the instruction word stored little-endian at `pc`.
    pub fn read_pc(&self, pc: u32) -> (r: u32)
        requires
            self.wf(),
        ensures
            r == word_at(self@, pc),
    {
        let b0 = self.get_data(Self::index(pc, 0));
        let b1 = self.get_data(Self::index(pc, 1));
        let b2 = self.get_data(Self::index(pc, 2));
        let b3 = self.get_data(Self::index(pc, 3));
        b0 as u32 + b1 as u32 * 0x100 + b2 as u32 * 0x1_0000 + b3 as u32 * 0x100_0000
    }

    /// Stores `data` at the word-aligned address that holds `addr`, whatever
    /// the two low bits of `addr`; an aid to set memory up in tests.
    pub fn __write_garbage(&mut self, data: u32, addr: u32)
        requires
            old(self).wf(),
        ensures
            final(self)@ == store_result(old(self)@, MemStoreOp::StoreWord, (addr - addr % 4) as u32, data),
    {
        let aligned = addr - addr % 4;
        self.write_data(&MemStoreOp::StoreWord, aligned, data);
    }

    /// Performs load `op` at `addr`: bytes and half-words are sign- or
    /// zero-extended, words are read as they are. Half-word loads need an
    /// even address and word loads one that is a multiple of four.
    pub fn load_data(&self, op: &MemLoadOp, addr: u32) -> (r: i32)
        requires
            self.wf(),
            load_allowed(*op, addr),
        ensures
            r == load_value(self@, *op, addr),
    {
        let b0 = self.get_data(Self::index(addr, 0));
        match *op {
            MemLoadOp::LoadByte => {
                let v = b0 as i32;
                if v >= 0x80 {
                    v - 0x100
                } else {
                    v
                }
            },
            MemLoadOp::LoadHalf => {
                let b1 = self.get_data(Self::index(addr, 1));
                let v = b0 as i32 + b1 as i32 * 0x100;
                if v >= 0x8000 {
                    v - 0x1_0000
                } else {
                    v
                }
            },
            MemLoadOp::LoadWord => {
                let b1 = self.get_data(Self::index(addr, 1));
                let b2 = self.get_data(Self::index(addr, 2));
                let b3 = self.get_data(Self::index(addr, 3));
                let w = b0 as u32 + b1 as u32 * 0x100 + b2 as u32 * 0x1_0000 + b3 as u32
                    * 0x100_0000;
                w as i32
            },
            MemLoadOp::LoadByteUnsigned => b0 as i32,
            MemLoadOp::LoadHalfUnsigned => {
                let b1 = self.get_data(Self::index(addr, 1));
                b0 as i32 + b1 as i32 * 0x100
            },
            MemLoadOp::InvalidLoad => 0,
        }
    }

    /// Performs store `op` of `data` at `addr`: the low byte, half-word or
    /// word of `data`, least significant byte first. Half-word stores need
    /// an even address and word stores one that is a multiple of four.
    pub fn write_data(&mut self, op: &MemStoreOp, addr: u32, data: u32)
        requires
            old(self).wf(),
            store_allowed(*op, addr),
        ensures
            final(self).wf(),
            final(self)@ == store_result(old(self)@, *op, addr, data),
    {
        proof {
            lemma_bytes_of(data);
        }
        let d0 = (data & 0xff) as u8;
        let d1 = ((data >> 8) & 0xff) as u8;
        let d2 = ((data >> 16) & 0xff) as u8;
        let d3 = ((data >> 24) & 0xff) as u8;
        match *op {
            MemStoreOp::StoreByte => {
                self.put_data(Self::index(addr, 0), d0);
            },
            MemStoreOp::StoreHalf => {
                self.put_data(Self::index(addr, 0), d0);
                self.put_data(Self::index(addr, 1), d1);
            },
            MemStoreOp::StoreWord => {
                self.put_data(Self::index(addr, 0), d0);
                self.put_data(Self::index(addr, 1), d1);
                self.put_data(Self::index(addr, 2), d2);
                self.put_data(Self::index(addr, 3), d3);
            },
            MemStoreOp::InvalidStore => {},
        }
    }
}

impl Default for Memory {
    fn default() -> (r: Self)
        ensures
            r.wf(),
            forall|i: int| 0 <= i < MEMORY_SIZE ==> #[trigger] r@[i] == 0,
    {
        Memory::new()
    }
}

impl From<RV32I> for MemLoadOp {
    fn from(instr: RV32I) -> Self {
        match instr {
            RV32I::LB => MemLoadOp::LoadByte,
            RV32I::LH => MemLoadOp::LoadHalf,
            RV32I::LW => MemLoadOp::LoadWord,
            RV32I::LBU => MemLoadOp::LoadByteUnsigned,
            RV32I::LHU => MemLoadOp::LoadHalfUnsigned,
            _ => MemLoadOp::InvalidLoad,
        }
    }
}

impl vstd::std_specs::convert::FromSpecImpl<RV32I> for MemLoadOp {
    open spec fn obeys_from_spec() -> bool {
        true
    }

    open spec fn from_spec(v: RV32I) -> Self {
        load_op_of(v)
    }
}

impl From<RV32I> for MemStoreOp {
    fn from(instr: RV32I) -> Self {
        match instr {
            RV32I::SB => MemStoreOp::StoreByte,
            RV32I::SH => MemStoreOp::StoreHalf,
            RV32I::SW => MemStoreOp::StoreWord,
            _ => MemStoreOp::InvalidStore,
        }
    }
}

impl vstd::std_specs::convert::FromSpecImpl<RV32I> for MemStoreOp {
    open spec fn obeys_from_spec() -> bool {
        true
    }

    open spec fn from_spec(v: RV32I) -> Self {
        store_op_of(v)
    }
}

proof fn lemma_aligned_index(addr: u32, k: int)
    requires
        addr % 4 == 0,
        0 <= k < 4,
    ensures
        byte_index(addr, k) == masked(addr) + k,
        masked(addr) % 4 == 0,
        0 <= masked(addr) < MEMORY_SIZE,
{
    assert((addr & 0x1f_ffff) % 4 == 0 && addr & 0x1f_ffff < 0x20_0000) by (bit_vector)
        requires
            addr % 4 == 0,
    ;
}

proof fn lemma_masked_range(addr: u32)
    ensures
        0 <= masked(addr) < MEMORY_SIZE,
        0 <= byte_index(addr, 0) < MEMORY_SIZE,
        byte_index(addr, 0) == masked(addr),
{
    assert(addr & 0x1f_ffff < 0x20_0000) by (bit_vector);
}

/// Storing a byte and loading it back unsigned gives the byte.
pub proof fn lemma_byte_round_trip(m: Seq<u8>, addr: u32, v: u32)
    requires
        m.len() == MEMORY_SIZE,
        v < 0x100,
    ensures
        load_value(
            store_result(m, MemStoreOp::StoreByte, addr, v),
            MemLoadOp::LoadByteUnsigned,
            addr,
        ) == v as i32,
{
    lemma_masked_range(addr);
    assert(v & 0xff == v) by (bit_vector)
        requires
            v < 0x100,
    ;
}

/// Storing a word at an address that is a multiple of four and loading it
/// back gives the word, read as a signed number.
pub proof fn lemma_word_round_trip(m: Seq<u8>, addr: u32, w: u32)
    requires
        m.len() == MEMORY_SIZE,
        addr % 4 == 0,
    ensures
        load_value(store_result(m, MemStoreOp::StoreWord, addr, w), MemLoadOp::LoadWord, addr)
            == w as i32,
{
    lemma_aligned_index(addr, 0);
    lemma_aligned_index(addr, 1);
    lemma_aligned_index(addr, 2);
    lemma_aligned_index(addr, 3);
    lemma_bytes_of(w);
    assert((w & 0xff) + ((w >> 8) & 0xff) * 0x100 + ((w >> 16) & 0xff) * 0x1_0000 + ((w >> 24)
        & 0xff) * 0x100_0000 == w) by (bit_vector);
}

/// A stored word lies in memory least significant byte first.
pub proof fn lemma_little_endian(m: Seq<u8>, a: u32)
    requires
        m.len() == MEMORY_SIZE,
        a % 4 == 0,
    ensures
        ({
            let m2 = store_result(m, MemStoreOp::StoreWord, a, 0xAABB_CCDD);
            &&& load_value(m2, MemLoadOp::LoadByteUnsigned, a) == 0xDD
            &&& load_value(m2, MemLoadOp::LoadByteUnsigned, (a + 1) as u32) == 0xCC
            &&& load_value(m2, MemLoadOp::LoadByteUnsigned, (a + 2) as u32) == 0xBB
            &&& load_value(m2, MemLoadOp::LoadByteUnsigned, (a + 3) as u32) == 0xAA
        }),
{
    lemma_aligned_index(a, 0);
    lemma_aligned_index(a, 1);
    lemma_aligned_index(a, 2);
    lemma_aligned_index(a, 3);
    assert(forall|k: u32|
        k < 4 ==> ((#[trigger] ((a + k) as u32)) & 0x1f_ffff) == (a & 0x1f_ffff) + k) by (bit_vector)
        requires
            a % 4 == 0,
    ;
    assert(((a + 1) as u32) & 0x1f_ffff == (a & 0x1f_ffff) + 1);
    assert(((a + 2) as u32) & 0x1f_ffff == (a & 0x1f_ffff) + 2);
    assert(((a + 3) as u32) & 0x1f_ffff == (a & 0x1f_ffff) + 3);
    let w: u32 = 0xAABB_CCDD;
    assert(w & 0xff == 0xDD && (w >> 8) & 0xff == 0xCC && (w >> 16) & 0xff == 0xBB && (w >> 24)
        & 0xff == 0xAA) by (bit_vector)
        requires
            w == 0xAABB_CCDD,
    ;
}

/// A stored byte of 0x80 loads as -128 signed and as 128 unsigned.
pub proof fn lemma_narrow_load_sign(m: Seq<u8>, a: u32)
    requires
        m.len() == MEMORY_SIZE,
    ensures
        load_value(store_result(m, MemStoreOp::StoreByte, a, 0x80), MemLoadOp::LoadByte, a)
            == -128,
        load_value(
            store_result(m, MemStoreOp::StoreByte, a, 0x80),
            MemLoadOp::LoadByteUnsigned,
            a,
        ) == 128,
{
    lemma_masked_range(a);
    let v: u32 = 0x80;
    assert(v & 0xff == 0x80) by (bit_vector)
        requires
            v == 0x80,
    ;
}

/// Loads see only the low 21 bits of the address: masking it changes
/// neither whether the load is allowed nor the value loaded.
pub proof fn lemma_address_masking(m: Seq<u8>, op: MemLoadOp, addr: u32)
    ensures
        load_value(m, op, addr) == load_value(m, op, addr & 0x1f_ffff),
        load_allowed(op, addr) == load_allowed(op, addr & 0x1f_ffff),
{
    assert((addr & 0x1f_ffff) & 0x1f_ffff == addr & 0x1f_ffff) by (bit_vector);
    assert((addr & 0x1f_ffff) % 2 == addr % 2 && (addr & 0x1f_ffff) % 4 == addr % 4)
        by (bit_vector);
}

} // verus!
