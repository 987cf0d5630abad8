//! MBC2: up to 256 KiB of ROM and 512 half-bytes of built-in SRAM.
use vstd::prelude::*;
use crate::hw_constants::{ROM_BANK_0_END, SRAM_END, SRAM_START};
use crate::interpreter::mbc::mbc1::copy_rom;

verus! {

pub const SRAM_ADDR_MASK: u16 = 0x01FF;
pub const MBC2_SRAM_SIZE: usize = 512;

pub struct Mbc2 {
    pub rom: Vec<u8>,
    pub sram: Vec<u8>,
    pub current_rom_bank: u8,
    pub current_rom_bank_start: usize,
    pub sram_enabled: bool,
}

impl Mbc2 {
    pub open spec fn wf(self) -> bool {
        &&& self.sram@.len() == MBC2_SRAM_SIZE
        &&& 1 <= self.current_rom_bank <= 0x0F
        &&& self.current_rom_bank_start == 0x4000 * (self.current_rom_bank - 1)
    }

    pub open spec fn read_ok(self, index: u16) -> bool {
        if index < ROM_BANK_0_END {
            index < self.rom@.len()
        } else if SRAM_START <= index < SRAM_END {
            true
        } else {
            self.current_rom_bank_start + index < self.rom@.len()
        }
    }

    /// ROM bank 0 below 0x4000; the SRAM half-byte at `index & 0x1FF` with
    /// the upper four bits read as 1 (0xFF while disabled) in 0xA000..0xC000;
    /// otherwise the current ROM bank.
    pub open spec fn read_spec(self, index: u16) -> u8 {
        if index < ROM_BANK_0_END {
            self.rom@[index as int]
        } else if SRAM_START <= index < SRAM_END {
            if self.sram_enabled {
                self.sram@[(index & SRAM_ADDR_MASK) as int] | 0xF0
            } else {
                0xFF
            }
        } else {
            self.rom@[0x4000 * self.current_rom_bank + (index - 0x4000)]
        }
    }

    pub open spec fn write_ok(self, index: u16) -> bool {
        index < 0x8000 || SRAM_START <= index < SRAM_END
    }

    pub fn from_rom(rom: &[u8]) -> (r: Self)
        ensures
            r.wf(),
            r.rom@ == rom@,
            r.sram@ == Seq::new(MBC2_SRAM_SIZE as nat, |i: int| 0u8),
            r.current_rom_bank == 1,
            !r.sram_enabled,
    {
        let sram: Vec<u8> = vec![0; MBC2_SRAM_SIZE];
        assert(sram@ =~= Seq::new(MBC2_SRAM_SIZE as nat, |i: int| 0u8));
        Mbc2 {
            rom: copy_rom(rom),
            sram,
            current_rom_bank: 1,
            current_rom_bank_start: 0,
            sram_enabled: false,
        }
    }

    /// Select ROM bank `bank_number`, where bank 0 selects bank 1.
    fn update_rom_bank(&mut self, bank_number: u8)
        ensures
            final(self).current_rom_bank == if bank_number == 0 { 1 } else { bank_number },
            final(self).current_rom_bank_start == 0x4000 * (final(self).current_rom_bank - 1),
            final(self).rom == old(self).rom,
            final(self).sram == old(self).sram,
            final(self).sram_enabled == old(self).sram_enabled,
    {
        let bank_number = if bank_number < 1 { 1 } else { bank_number };
        self.current_rom_bank = bank_number;
        self.current_rom_bank_start = 0x4000 * (bank_number as usize - 1);
    }

    pub fn read_byte(&self, index: u16) -> (r: u8)
        requires
            self.wf(),
            self.read_ok(index),
        ensures
            r == self.read_spec(index),
    {
        if index < ROM_BANK_0_END {
            self.rom[index as usize]
        } else if SRAM_START <= index && index < SRAM_END {
            if self.sram_enabled {
                let sram_index = index & SRAM_ADDR_MASK;
                assert(index & 0x01FFu16 <= 0x01FF) by (bit_vector);
                // MBC2 SRAM is only made up of half bytes, so pull the upper 4 bits high.
                self.sram[sram_index as usize] | 0xF0
            } else {
                0xFF
            }
        } else {
            let rom_index = self.current_rom_bank_start + index as usize;
            self.rom[rom_index]
        }
    }

    /// What a write of `value` to `index` does: `n` is the controller after
    /// the write, `o` before it.
    pub open spec fn written(o: Self, n: Self, index: u16, value: u8) -> bool {
        &&& (n.wf())
        &&& (n.rom == o.rom)
        &&& (index < 0x4000 && index & 0x0100 == 0 ==> n.sram_enabled == (value & 0x0F == 0x0A)
            && n.current_rom_bank == o.current_rom_bank && n.sram@ == o.sram@)
        &&& (index < 0x4000 && index & 0x0100 != 0 ==> n.current_rom_bank == (if value & 0x0F == 0 {
            1
            } else {
            value & 0x0F
            }) && n.sram_enabled == o.sram_enabled && n.sram@ == o.sram@)
        &&& (0x4000 <= index < 0x8000 ==> n.sram_enabled == o.sram_enabled
            && n.current_rom_bank == o.current_rom_bank && n.sram@ == o.sram@)
        &&& (SRAM_START <= index < SRAM_END ==> n.sram@ == (if o.sram_enabled {
            o.sram@.update((index & SRAM_ADDR_MASK) as int, value)
            } else {
            o.sram@
            }) && n.sram_enabled == o.sram_enabled
            && n.current_rom_bank == o.current_rom_bank)
    }

    /// Below 0x4000, address bit 8 selects the register: clear, the low
    /// nibble enables SRAM when it is 0xA; set, it is the ROM bank number.
    pub fn write_byte(&mut self, index: u16, value: u8)
        requires
            old(self).wf(),
            old(self).write_ok(index),
        ensures
            Self::written(*old(self), *final(self), index, value),
    {
        if index < 0x4000 {
            let lower_val_nibble = value & 0x0F;
            assert(value & 0x0Fu8 <= 0x0F) by (bit_vector);
            // Address bit 8 clear: the value controls whether SRAM is enabled.
            if index & 0x0100 == 0 {
                self.sram_enabled = lower_val_nibble == 0xA;
                return;
            }
            // Otherwise the value is the ROM bank.
            self.update_rom_bank(lower_val_nibble);
        } else if index < 0x8000 {
        } else {
            if self.sram_enabled {
                let sram_index = index & SRAM_ADDR_MASK;
                assert(index & 0x01FFu16 <= 0x01FF) by (bit_vector);
                self.sram.set(sram_index as usize, value);
            }
        }
    }
}

impl Default for Mbc2 {
    fn default() -> (r: Self)
        ensures
            r.wf(),
            r.rom@.len() == 0,
            r.current_rom_bank == 1,
            !r.sram_enabled,
    {
        Mbc2 {
            rom: Vec::new(),
            sram: vec![0; MBC2_SRAM_SIZE],
            current_rom_bank: 1,
            current_rom_bank_start: 0,
            sram_enabled: false,
        }
    }
}

} // verus!
