//! The machine's memory map and its two raw memory regions.

use vstd::arithmetic::div_mod::{
    lemma_fundamental_div_mod, lemma_fundamental_div_mod_converse_mod, lemma_mod_bound,
};
use vstd::prelude::*;

verus! {

/// Size of the boot ROM in bytes (4 MiB).
pub const BOOT_ROM_SIZE: usize = 4 * 1024 * 1024;

/// Size of main RAM in bytes (16 MiB).
pub const MAIN_RAM_SIZE: usize = 16 * 1024 * 1024;

pub const BOOT_ROM_BEGIN: usize = 0x0000000;

pub const MAIN_RAM_BEGIN: usize = 0x1000000;

pub const UART_BEGIN: usize = 0x6000000;

pub const CLOCK_BEGIN: usize = 0x8000000;

/// The index of the byte at guest address `addr` in a region of `size`
/// bytes: an address beyond the region comes back into it.
pub open spec fn wrapped(addr: int, size: int) -> int {
    addr % size
}

/// The 32-bit word whose four bytes lie at `addr` and after it in `region`,
/// lowest byte first.
pub open spec fn word_at(region: Seq<u8>, addr: u32) -> u32 {
    let size = region.len() as int;
    (region[wrapped(addr as int, size)] + 0x100 * region[wrapped(addr + 1, size)] + 0x1_0000
        * region[wrapped(addr + 2, size)] + 0x100_0000 * region[wrapped(addr + 3, size)]) as u32
}

/// `region` after the four bytes of `val` have been stored at `addr` and
/// after it, lowest byte first.
pub open spec fn with_word(region: Seq<u8>, addr: u32, val: u32) -> Seq<u8> {
    let size = region.len() as int;
    region.update(wrapped(addr as int, size), (val % 0x100) as u8).update(
        wrapped(addr + 1, size),
        (val / 0x100 % 0x100) as u8,
    ).update(wrapped(addr + 2, size), (val / 0x1_0000 % 0x100) as u8).update(
        wrapped(addr + 3, size),
        (val / 0x100_0000) as u8,
    )
}

/// Reads the word at guest address `addr` of a raw region.
pub fn load_word(region: &Vec<u8>, addr: u32) -> (val: u32)
    requires
        region@.len() > 0,
    ensures
        val == word_at(region@, addr),
{
    let size: u64 = region.len() as u64;
    let a: u64 = addr as u64;
    let b0: u32 = region[(a % size) as usize] as u32;
    let b1: u32 = region[((a + 1) % size) as usize] as u32;
    let b2: u32 = region[((a + 2) % size) as usize] as u32;
    let b3: u32 = region[((a + 3) % size) as usize] as u32;
    b0 + 0x100 * b1 + 0x1_0000 * b2 + 0x100_0000 * b3
}

/// Writes the word `val` at guest address `addr` of a raw region.
pub fn store_word(region: &mut Vec<u8>, addr: u32, val: u32)
    requires
        old(region)@.len() > 0,
    ensures
        final(region)@ == with_word(old(region)@, addr, val),
{
    let size: u64 = region.len() as u64;
    let a: u64 = addr as u64;
    region.set((a % size) as usize, (val % 0x100) as u8);
    region.set(((a + 1) % size) as usize, (val / 0x100 % 0x100) as u8);
    region.set(((a + 2) % size) as usize, (val / 0x1_0000 % 0x100) as u8);
    region.set(((a + 3) % size) as usize, (val / 0x100_0000) as u8);
}

/// A word that is stored in a region of at least four bytes is the word
/// that is loaded from the same address, wherever the address lies.
pub proof fn lemma_load_after_store(region: Seq<u8>, addr: u32, val: u32)
    requires
        region.len() >= 4,
    ensures
        word_at(with_word(region, addr, val), addr) == val,
        with_word(region, addr, val).len() == region.len(),
{
    let size = region.len() as int;
    lemma_wrapped_offset(addr as int, 0, size);
    lemma_wrapped_offset(addr as int, 1, size);
    lemma_wrapped_offset(addr as int, 2, size);
    lemma_wrapped_offset(addr as int, 3, size);
}

proof fn lemma_wrapped_offset(addr: int, k: int, size: int)
    requires
        0 <= addr,
        0 <= k < size,
    ensures
        wrapped(addr + k, size) == if addr % size + k < size {
            addr % size + k
        } else {
            addr % size + k - size
        },
        0 <= addr % size < size,
{
    let q = addr / size;
    let r = addr % size;
    lemma_fundamental_div_mod(addr, size);
    lemma_mod_bound(addr, size);
    assert(size * q == q * size) by (nonlinear_arith);
    if r + k < size {
        lemma_fundamental_div_mod_converse_mod(addr + k, size, q, r + k);
    } else {
        assert((q + 1) * size == q * size + size) by (nonlinear_arith);
        lemma_fundamental_div_mod_converse_mod(addr + k, size, q + 1, r + k - size);
    }
}

/// The boot ROM and main RAM.
pub struct Memory {
    pub boot_rom: Vec<u8>,
    pub main_ram: Vec<u8>,
}

impl Memory {
    /// Whether both regions have their full size.
    pub open spec fn wf(&self) -> bool {
        &&& self.boot_rom@.len() == BOOT_ROM_SIZE
        &&& self.main_ram@.len() == MAIN_RAM_SIZE
    }

    /// Both regions at their full size, filled with zeros.
    pub fn new() -> (mem: Memory)
        ensures
            mem.wf(),
            forall|i: int| 0 <= i < BOOT_ROM_SIZE ==> mem.boot_rom@[i] == 0,
            forall|i: int| 0 <= i < MAIN_RAM_SIZE ==> mem.main_ram@[i] == 0,
    {
        Memory { boot_rom: vec![0u8; BOOT_ROM_SIZE], main_ram: vec![0u8; MAIN_RAM_SIZE] }
    }

    /// Reads a word of the boot ROM. An address beyond the ROM wraps round.
    pub fn load_bootrom(&self, addr: u32) -> (val: u32)
        requires
            self.boot_rom@.len() > 0,
        ensures
            val == word_at(self.boot_rom@, addr),
    {
        load_word(&self.boot_rom, addr)
    }

    /// Writes a word of the boot ROM. An address beyond the ROM wraps round.
    pub fn store_bootrom(&mut self, addr: u32, val: u32)
        requires
            old(self).boot_rom@.len() > 0,
        ensures
            final(self).boot_rom@ == with_word(old(self).boot_rom@, addr, val),
            final(self).main_ram@ == old(self).main_ram@,
    {
        store_word(&mut self.boot_rom, addr, val);
    }

    /// Reads a word of main RAM. An address beyond it wraps round.
    pub fn load_main(&self, addr: u32) -> (val: u32)
        requires
            self.main_ram@.len() > 0,
        ensures
            val == word_at(self.main_ram@, addr),
    {
        load_word(&self.main_ram, addr)
    }

    /// Writes a word of main RAM. An address beyond it wraps round.
    pub fn store_main(&mut self, addr: u32, val: u32)
        requires
            old(self).main_ram@.len() > 0,
        ensures
            final(self).main_ram@ == with_word(old(self).main_ram@, addr, val),
            final(self).boot_rom@ == old(self).boot_rom@,
    {
        store_word(&mut self.main_ram, addr, val);
    }
}

} // verus!
