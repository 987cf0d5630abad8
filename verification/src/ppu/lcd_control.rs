//! Flags of the LCD control register (LCDC), read from the memory map.
use vstd::prelude::*;
use crate::bits::{bit_of, lemma_mask_is_bit};
use crate::io_regs;

verus! {

/// The value of the LCDC register in a memory map.
pub open spec fn lcdc_of(memory: Seq<u8>) -> u8 {
    memory[io_regs::LCDC as int]
}

pub fn nth_bit(value: u8, n: u8) -> (r: bool)
    requires
        n < 8,
    ensures
        r == bit_of(value, n),
{
    let mask: u8 = 0b0000_0001 << n;
    proof {
        lemma_mask_is_bit(value, n);
    }
    value & mask == mask
}

pub fn lcd_and_ppu_enabled(memory: &[u8]) -> (r: bool)
    requires
        memory@.len() > io_regs::LCDC,
    ensures
        r == bit_of(lcdc_of(memory@), 7),
{
    nth_bit(memory[io_regs::LCDC as usize], 7)
}

pub fn window_tile_map(memory: &[u8]) -> (r: bool)
    requires
        memory@.len() > io_regs::LCDC,
    ensures
        r == bit_of(lcdc_of(memory@), 6),
{
    nth_bit(memory[io_regs::LCDC as usize], 6)
}

pub fn window_enabled(memory: &[u8]) -> (r: bool)
    requires
        memory@.len() > io_regs::LCDC,
    ensures
        r == bit_of(lcdc_of(memory@), 5),
{
    nth_bit(memory[io_regs::LCDC as usize], 5)
}

pub fn bg_and_window_tiles(memory: &[u8]) -> (r: bool)
    requires
        memory@.len() > io_regs::LCDC,
    ensures
        r == bit_of(lcdc_of(memory@), 4),
{
    nth_bit(memory[io_regs::LCDC as usize], 4)
}

pub fn bg_tile_map(memory: &[u8]) -> (r: bool)
    requires
        memory@.len() > io_regs::LCDC,
    ensures
        r == bit_of(lcdc_of(memory@), 3),
{
    nth_bit(memory[io_regs::LCDC as usize], 3)
}

pub fn obj_size(memory: &[u8]) -> (r: bool)
    requires
        memory@.len() > io_regs::LCDC,
    ensures
        r == bit_of(lcdc_of(memory@), 2),
{
    nth_bit(memory[io_regs::LCDC as usize], 2)
}

pub fn obj_enabled(memory: &[u8]) -> (r: bool)
    requires
        memory@.len() > io_regs::LCDC,
    ensures
        r == bit_of(lcdc_of(memory@), 1),
{
    nth_bit(memory[io_regs::LCDC as usize], 1)
}

pub fn bg_and_window_enabled(memory: &[u8]) -> (r: bool)
    requires
        memory@.len() > io_regs::LCDC,
    ensures
        r == bit_of(lcdc_of(memory@), 0),
{
    nth_bit(memory[io_regs::LCDC as usize], 0)
}

} // verus!
