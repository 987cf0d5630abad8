use vstd::prelude::*;
use crate::io_regs;

verus! {

pub const MEM_MAP_SIZE: usize = 0x10000;

pub const ROM_BANK_0_END: u16 = 0x4000;

pub const VRAM_START: u16 = 0x8000;
pub const VRAM_END: u16 = 0xA000;
pub const VRAM_SIZE: u16 = 0x2000;

pub const SRAM_START: u16 = 0xA000;
pub const SRAM_END: u16 = 0xC000;

pub const ECHO_START: u16 = 0xE000;
pub const ECHO_END: u16 = 0xFE00;

pub const OAM_START: u16 = 0xFE00;
pub const OAM_END: u16 = 0xFEA0;
pub const OAM_SIZE: u16 = 0xA0;

pub const DMA: u16 = 0xFF46;

pub const HRAM_START: u16 = 0xFF80;

pub const IE: u16 = 0xFFFF;

pub const SCREEN_WIDTH: u8 = 160;
pub const SCREEN_HEIGHT: u8 = 144;
pub const SCREEN_SIZE: usize = 23040;

pub const TILE_MAP_SIZE: u16 = 256;

pub const TILE_SIZE: u8 = 8;

/// Types with a defined state right after the DMG boot ROM has run.
pub trait PostBoot: Sized {
    fn post_boot_dmg() -> Self;
}

/// The value of an audio register (0xFF10..=0xFF26) after boot.
pub open spec fn post_boot_audio(addr: int) -> u8 {
    if addr == io_regs::NR10 { 0x80 }
    else if addr == io_regs::NR11 { 0xBF }
    else if addr == io_regs::NR12 { 0xF3 }
    else if addr == io_regs::NR13 { 0xFF }
    else if addr == io_regs::NR14 { 0xBF }
    else if addr == 0xFF15 { 0xFF }
    else if addr == io_regs::NR21 { 0x3F }
    else if addr == io_regs::NR22 { 0x00 }
    else if addr == io_regs::NR23 { 0xFF }
    else if addr == io_regs::NR24 { 0xBF }
    else if addr == io_regs::NR30 { 0x7F }
    else if addr == io_regs::NR31 { 0xFF }
    else if addr == io_regs::NR32 { 0x9F }
    else if addr == io_regs::NR33 { 0xFF }
    else if addr == io_regs::NR34 { 0xBF }
    else if addr == 0xFF1F { 0xFF }
    else if addr == io_regs::NR41 { 0xFF }
    else if addr == io_regs::NR42 { 0x00 }
    else if addr == io_regs::NR43 { 0x00 }
    else if addr == io_regs::NR44 { 0xBF }
    else if addr == io_regs::NR50 { 0x77 }
    else if addr == io_regs::NR51 { 0xF3 }
    else { 0xF1 }  // NR52
}

/// The byte at `addr` of the memory map right after a DMG or MGB has booted:
/// cartridge RAM reads 0xFF,
/// the I/O registers hold their documented values, unused I/O addresses read
/// 0xFF, and everything else (including IE) is zero.
pub open spec fn post_boot_byte(addr: int) -> u8 {
    if 0xA000 <= addr < 0xC000 { 0xFF }
    else if addr == io_regs::JOYP { 0xCF }
    else if addr == io_regs::SC { 0x7E }
    else if addr == 0xFF03 { 0xFF }
    else if addr == io_regs::TAC { 0xF8 }
    else if 0xFF08 <= addr < 0xFF0F { 0xFF }
    else if addr == io_regs::IF { 0xE1 }
    else if 0xFF10 <= addr <= 0xFF26 { post_boot_audio(addr) }
    else if 0xFF27 <= addr < 0xFF40 { 0xFF }
    else if addr == io_regs::LCDC { 0x91 }
    else if addr == io_regs::STAT { 0x85 }
    else if addr == io_regs::BGP { 0xFC }
    else if 0xFF4C <= addr < 0xFFFF { 0xFF }
    else { 0 }
}

fn post_boot_audio_exec(addr: u16) -> (r: u8)
    requires
        0xFF10 <= addr <= 0xFF26,
    ensures
        r == post_boot_audio(addr as int),
{
    if addr == io_regs::NR10 { 0x80 }
    else if addr == io_regs::NR11 { 0xBF }
    else if addr == io_regs::NR12 { 0xF3 }
    else if addr == io_regs::NR13 { 0xFF }
    else if addr == io_regs::NR14 { 0xBF }
    else if addr == 0xFF15 { 0xFF }
    else if addr == io_regs::NR21 { 0x3F }
    else if addr == io_regs::NR22 { 0x00 }
    else if addr == io_regs::NR23 { 0xFF }
    else if addr == io_regs::NR24 { 0xBF }
    else if addr == io_regs::NR30 { 0x7F }
    else if addr == io_regs::NR31 { 0xFF }
    else if addr == io_regs::NR32 { 0x9F }
    else if addr == io_regs::NR33 { 0xFF }
    else if addr == io_regs::NR34 { 0xBF }
    else if addr == 0xFF1F { 0xFF }
    else if addr == io_regs::NR41 { 0xFF }
    else if addr == io_regs::NR42 { 0x00 }
    else if addr == io_regs::NR43 { 0x00 }
    else if addr == io_regs::NR44 { 0xBF }
    else if addr == io_regs::NR50 { 0x77 }
    else if addr == io_regs::NR51 { 0xF3 }
    else { 0xF1 }
}

fn post_boot_byte_exec(addr: u16) -> (r: u8)
    ensures
        r == post_boot_byte(addr as int),
{
    if 0xA000 <= addr && addr < 0xC000 { 0xFF }
    else if addr == io_regs::JOYP { 0xCF }
    else if addr == io_regs::SC { 0x7E }
    else if addr == 0xFF03 { 0xFF }
    else if addr == io_regs::TAC { 0xF8 }
    else if 0xFF08 <= addr && addr < 0xFF0F { 0xFF }
    else if addr == io_regs::IF { 0xE1 }
    else if 0xFF10 <= addr && addr <= 0xFF26 { post_boot_audio_exec(addr) }
    else if 0xFF27 <= addr && addr < 0xFF40 { 0xFF }
    else if addr == io_regs::LCDC { 0x91 }
    else if addr == io_regs::STAT { 0x85 }
    else if addr == io_regs::BGP { 0xFC }
    else if 0xFF4C <= addr && addr < 0xFFFF { 0xFF }
    else { 0 }
}

/// The memory map's hardware registers as the boot ROM leaves them.
pub fn post_boot_hwio() -> (r: Vec<u8>)
    ensures
        r@.len() == MEM_MAP_SIZE,
        forall|i: int| 0 <= i < MEM_MAP_SIZE ==> r@[i] == post_boot_byte(i),
{
    let mut buffer: Vec<u8> = Vec::with_capacity(MEM_MAP_SIZE);
    let mut i: usize = 0;
    while i < MEM_MAP_SIZE
        invariant
            i <= MEM_MAP_SIZE,
            buffer@.len() == i,
            forall|k: int| 0 <= k < i ==> buffer@[k] == post_boot_byte(k),
        decreases MEM_MAP_SIZE - i,
    {
        buffer.push(post_boot_byte_exec(i as u16));
        i += 1;
    }
    buffer
}

} // verus!
