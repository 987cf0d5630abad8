//! Flags and fields of the LCD status register (STAT), read from and written
//! to the memory map.
use vstd::prelude::*;
use crate::bits::{bit_of, lemma_bit_masks};
use crate::io_regs;

verus! {

/// The value of the STAT register in a memory map.
pub open spec fn stat_of(memory: Seq<u8>) -> u8 {
    memory[io_regs::STAT as int]
}

/// `v` with bit 2 (the LYC == LY coincidence bit) set to `value`.
pub open spec fn with_coincidence(v: u8, value: bool) -> u8 {
    if value { v | 0b0000_0100 } else { v & !0b0000_0100u8 }
}

/// `v` with its two low bits (the PPU mode) replaced by the low bits of `mode`.
pub open spec fn with_ppu_mode(v: u8, mode: u8) -> u8 {
    (v & 0b1111_1100) | (mode & 0b0000_0011)
}

pub fn lyc_int_select(memory: &[u8]) -> (r: bool)
    requires
        memory@.len() > io_regs::STAT,
    ensures
        r == bit_of(stat_of(memory@), 6),
{
    proof { lemma_bit_masks(memory@[io_regs::STAT as int]); }
    memory[io_regs::STAT as usize] & 0b0100_0000 == 0b0100_0000
}

pub fn mode2_int_select(memory: &[u8]) -> (r: bool)
    requires
        memory@.len() > io_regs::STAT,
    ensures
        r == bit_of(stat_of(memory@), 5),
{
    proof { lemma_bit_masks(memory@[io_regs::STAT as int]); }
    memory[io_regs::STAT as usize] & 0b0010_0000 == 0b0010_0000
}

pub fn mode1_int_select(memory: &[u8]) -> (r: bool)
    requires
        memory@.len() > io_regs::STAT,
    ensures
        r == bit_of(stat_of(memory@), 4),
{
    proof { lemma_bit_masks(memory@[io_regs::STAT as int]); }
    memory[io_regs::STAT as usize] & 0b0001_0000 == 0b0001_0000
}

pub fn mode0_int_select(memory: &[u8]) -> (r: bool)
    requires
        memory@.len() > io_regs::STAT,
    ensures
        r == bit_of(stat_of(memory@), 3),
{
    proof { lemma_bit_masks(memory@[io_regs::STAT as int]); }
    memory[io_regs::STAT as usize] & 0b0000_1000 == 0b0000_1000
}

/// Set the LYC == LY bit in the STATUS register.
pub fn set_coincidence(memory: &mut [u8], value: bool)
    requires
        old(memory)@.len() > io_regs::STAT,
    ensures
        final(memory)@ == old(memory)@.update(
            io_regs::STAT as int,
            with_coincidence(stat_of(old(memory)@), value),
        ),
{
    let coincidence_bit: u8 = 0b0000_0100;
    let stat = memory[io_regs::STAT as usize];
    if value {
        memory[io_regs::STAT as usize] = stat | coincidence_bit;
    } else {
        memory[io_regs::STAT as usize] = stat & !coincidence_bit;
    }
}

/// Set the PPU mode in the STATUS register.
/// Values: 0 - HBlank or LCD off, 1 - VBlank, 2 - OAM Scan, 3 - Drawing.
/// Only the two low bits of `value` are used.
pub fn set_ppu_mode(memory: &mut [u8], value: u8)
    requires
        old(memory)@.len() > io_regs::STAT,
    ensures
        final(memory)@ == old(memory)@.update(
            io_regs::STAT as int,
            with_ppu_mode(stat_of(old(memory)@), value),
        ),
{
    let stat = memory[io_regs::STAT as usize];
    let updated = (stat & 0b1111_1100) | (value & 0b0000_0011);
    memory[io_regs::STAT as usize] = updated;
}

pub fn ppu_mode(memory: &[u8]) -> (r: u8)
    requires
        memory@.len() > io_regs::STAT,
    ensures
        r == stat_of(memory@) & 0b0000_0011,
{
    memory[io_regs::STAT as usize] & 0b0000_0011
}

} // verus!
