//! LCDC flags read with direct masks (the older form of `lcd_control`).
use vstd::prelude::*;
use crate::bits::{bit_of, lemma_bit_masks};
use crate::io_regs;
use crate::ppu::lcd_control::lcdc_of;

verus! {

pub fn lcd_and_ppu_enabled(memory: &[u8]) -> (r: bool)
    requires
        memory@.len() > io_regs::LCDC,
    ensures
        r == bit_of(lcdc_of(memory@), 7),
{
    proof { lemma_bit_masks(memory@[io_regs::LCDC as int]); }
    memory[io_regs::LCDC as usize] & 0b1000_0000 == 0b1000_0000
}

pub fn window_tile_map(memory: &[u8]) -> (r: bool)
    requires
        memory@.len() > io_regs::LCDC,
    ensures
        r == bit_of(lcdc_of(memory@), 6),
{
    proof { lemma_bit_masks(memory@[io_regs::LCDC as int]); }
    memory[io_regs::LCDC as usize] & 0b0100_0000 == 0b0100_0000
}

pub fn window_enabled(memory: &[u8]) -> (r: bool)
    requires
        memory@.len() > io_regs::LCDC,
    ensures
        r == bit_of(lcdc_of(memory@), 5),
{
    proof { lemma_bit_masks(memory@[io_regs::LCDC as int]); }
    memory[io_regs::LCDC as usize] & 0b0010_0000 == 0b0010_0000
}

pub fn bg_and_window_tiles(memory: &[u8]) -> (r: bool)
    requires
        memory@.len() > io_regs::LCDC,
    ensures
        r == bit_of(lcdc_of(memory@), 4),
{
    proof { lemma_bit_masks(memory@[io_regs::LCDC as int]); }
    memory[io_regs::LCDC as usize] & 0b0001_0000 == 0b0001_0000
}

pub fn bg_tile_map(memory: &[u8]) -> (r: bool)
    requires
        memory@.len() > io_regs::LCDC,
    ensures
        r == bit_of(lcdc_of(memory@), 3),
{
    proof { lemma_bit_masks(memory@[io_regs::LCDC as int]); }
    memory[io_regs::LCDC as usize] & 0b0000_1000 == 0b0000_1000
}

pub fn bg_and_window_enabled(memory: &[u8]) -> (r: bool)
    requires
        memory@.len() > io_regs::LCDC,
    ensures
        r == bit_of(lcdc_of(memory@), 0),
{
    proof { lemma_bit_masks(memory@[io_regs::LCDC as int]); }
    memory[io_regs::LCDC as usize] & 0b0000_0001 == 0b0000_0001
}

} // verus!
