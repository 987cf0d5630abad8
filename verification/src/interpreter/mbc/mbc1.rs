//! MBC1: up to 512 KiB of ROM in 16 KiB banks and up to 32 KiB of banked SRAM.
use vstd::prelude::*;
use crate::hw_constants::{ROM_BANK_0_END, SRAM_END, SRAM_START};

verus! {

pub const RAM_SIZE_ADDR: usize = 0x0149;
pub const RAM_BANK_SIZE: usize = 0x2000;

pub const MBC1_ROM_BANK_MASK: u8 = 0b0001_1111;
pub const MBC1_SRAM_BANK_MASK: u8 = 0b0000_0011;

/// Bytes of SRAM for a RAM-size header byte: one 8 KiB bank for 2, four for
/// 3, none otherwise.
pub open spec fn mbc1_sram_len(ram_size: u8) -> nat {
    if ram_size == 2 { 0x2000 } else if ram_size == 3 { 0x8000 } else { 0 }
}

/// A copy of a ROM image.
pub fn copy_rom(rom: &[u8]) -> (r: Vec<u8>)
    ensures
        r@ == rom@,
{
    let mut rom_copy: Vec<u8> = Vec::with_capacity(rom.len());
    let mut i: usize = 0;
    while i < rom.len()
        invariant
            i <= rom@.len(),
            rom_copy@ == rom@.take(i as int),
        decreases rom@.len() - i,
    {
        rom_copy.push(rom[i]);
        assert(rom@.take(i + 1) =~= rom@.take(i as int).push(rom@[i as int]));
        i += 1;
    }
    assert(rom@.take(rom@.len() as int) =~= rom@);
    rom_copy
}

pub struct Mbc1 {
    pub rom: Vec<u8>,
    pub sram: Vec<u8>,
    pub current_rom_bank: u8,
    pub current_rom_bank_start: usize,
    pub current_sram_bank: u8,
    pub sram_enabled: bool,
    pub banking_mode: bool,
}

impl Mbc1 {
    pub open spec fn wf(self) -> bool {
        &&& self.rom@.len() > RAM_SIZE_ADDR
        &&& 1 <= self.current_rom_bank <= 0x1F
        &&& self.current_rom_bank_start == 0x4000 * (self.current_rom_bank - 1)
        &&& self.current_sram_bank < 4
    }

    /// Where a read of `index` lands is inside the ROM or SRAM.
    pub open spec fn read_ok(self, index: u16) -> bool {
        if index < ROM_BANK_0_END {
            index < self.rom@.len()
        } else if SRAM_START <= index < SRAM_END {
            self.sram_enabled ==> (self.current_sram_bank + 1) * RAM_BANK_SIZE <= self.sram@.len()
        } else {
            self.current_rom_bank_start + index < self.rom@.len()
        }
    }

    /// The byte a read of `index` returns: ROM bank 0 below 0x4000; SRAM of the
    /// current bank (0xFF while SRAM is disabled) in 0xA000..0xC000; otherwise
    /// the current ROM bank, `index - 0x4000` bytes into it.
    pub open spec fn read_spec(self, index: u16) -> u8 {
        if index < ROM_BANK_0_END {
            self.rom@[index as int]
        } else if SRAM_START <= index < SRAM_END {
            if self.sram_enabled {
                self.sram@[self.current_sram_bank * RAM_BANK_SIZE + (index - 0xA000)]
            } else {
                0xFF
            }
        } else {
            self.rom@[0x4000 * self.current_rom_bank + (index - 0x4000)]
        }
    }

    /// Writes go to the MBC's registers below 0x8000 and to SRAM.
    pub open spec fn write_ok(self, index: u16) -> bool {
        &&& index < 0x8000 || SRAM_START <= index < SRAM_END
        &&& (SRAM_START <= index < SRAM_END && self.sram_enabled) ==> (self.current_sram_bank + 1)
            * RAM_BANK_SIZE <= self.sram@.len()
    }

    pub fn from_rom(rom: &[u8]) -> (r: Self)
        requires
            rom@.len() > RAM_SIZE_ADDR,
        ensures
            r.wf(),
            r.rom@ == rom@,
            r.sram@ == Seq::new(mbc1_sram_len(rom@[RAM_SIZE_ADDR as int]), |i: int| 0u8),
            r.current_rom_bank == 1,
            r.current_sram_bank == 0,
            !r.sram_enabled,
            !r.banking_mode,
    {
        let sram: Vec<u8> = match rom[RAM_SIZE_ADDR] {
            2 => vec![0; RAM_BANK_SIZE],
            3 => vec![0; RAM_BANK_SIZE * 4],
            _ => Vec::new(),
        };
        assert(sram@ =~= Seq::new(mbc1_sram_len(rom@[RAM_SIZE_ADDR as int]), |i: int| 0u8));
        Mbc1 {
            rom: copy_rom(rom),
            sram,
            current_rom_bank: 1,
            current_rom_bank_start: 0,
            current_sram_bank: 0,
            sram_enabled: false,
            banking_mode: false,
        }
    }

    fn sram_size(&self) -> (r: u8)
        requires
            self.wf(),
        ensures
            r == self.rom@[RAM_SIZE_ADDR as int],
    {
        self.rom[RAM_SIZE_ADDR]
    }

    /// Select ROM bank `bank_number & 0x1F`, where bank 0 selects bank 1.
    fn update_rom_bank(&mut self, bank_number: u8)
        ensures
            final(self).current_rom_bank == if bank_number & MBC1_ROM_BANK_MASK == 0 {
                1
            } else {
                bank_number & MBC1_ROM_BANK_MASK
            },
            final(self).current_rom_bank_start == 0x4000 * (final(self).current_rom_bank - 1),
            1 <= final(self).current_rom_bank <= 0x1F,
            final(self).rom == old(self).rom,
            final(self).sram == old(self).sram,
            final(self).current_sram_bank == old(self).current_sram_bank,
            final(self).sram_enabled == old(self).sram_enabled,
            final(self).banking_mode == old(self).banking_mode,
    {
        proof { crate::bits::lemma_low_bits_bounds(bank_number); }
        let mut bank_number = bank_number & MBC1_ROM_BANK_MASK;
        if bank_number == 0 {
            bank_number = 1;
        }
        self.current_rom_bank = bank_number;
        self.current_rom_bank_start = 0x4000 * (bank_number as usize - 1);
    }

    /// Select SRAM bank `bank_number & 3`, or bank 0 when there is one bank.
    fn update_ram_bank(&mut self, bank_number: u8)
        requires
            old(self).wf(),
        ensures
            final(self).current_sram_bank == if old(self).rom@[RAM_SIZE_ADDR as int] == 2 {
                0
            } else {
                bank_number & MBC1_SRAM_BANK_MASK
            },
            final(self).current_sram_bank < 4,
            final(self).rom == old(self).rom,
            final(self).sram == old(self).sram,
            final(self).current_rom_bank == old(self).current_rom_bank,
            final(self).current_rom_bank_start == old(self).current_rom_bank_start,
            final(self).sram_enabled == old(self).sram_enabled,
            final(self).banking_mode == old(self).banking_mode,
    {
        proof { crate::bits::lemma_low_bits_bounds(bank_number); }
        let mut bank_number = bank_number & MBC1_SRAM_BANK_MASK;
        if self.sram_size() == 2 {
            bank_number = 0;
        }
        self.current_sram_bank = bank_number;
    }

    /// The bytes of SRAM bank `bank_number`.
    fn nth_sram_bank(&self, bank_number: u8) -> (r: &[u8])
        requires
            (bank_number + 1) * RAM_BANK_SIZE <= self.sram@.len(),
        ensures
            r@ == self.sram@.subrange(
                bank_number * RAM_BANK_SIZE,
                bank_number * RAM_BANK_SIZE + RAM_BANK_SIZE,
            ),
    {
        let start_addr = RAM_BANK_SIZE * bank_number as usize;
        let end_addr = start_addr + RAM_BANK_SIZE;
        &self.sram[start_addr..end_addr]
    }

    /// Write `value` at `offset` into SRAM bank `bank_number`.
    fn set_sram_byte(&mut self, bank_number: u8, offset: usize, value: u8)
        requires
            (bank_number + 1) * RAM_BANK_SIZE <= old(self).sram@.len(),
            offset < RAM_BANK_SIZE,
        ensures
            final(self).sram@ == old(self).sram@.update(bank_number * RAM_BANK_SIZE + offset, value),
            final(self).rom == old(self).rom,
            final(self).current_rom_bank == old(self).current_rom_bank,
            final(self).current_rom_bank_start == old(self).current_rom_bank_start,
            final(self).current_sram_bank == old(self).current_sram_bank,
            final(self).sram_enabled == old(self).sram_enabled,
            final(self).banking_mode == old(self).banking_mode,
    {
        let start_addr = RAM_BANK_SIZE * bank_number as usize;
        self.sram.set(start_addr + offset, value);
    }

    fn set_banking_mode(&mut self, banking_mode: u8)
        ensures
            final(self).banking_mode == (banking_mode & 1 == 1),
            final(self).rom == old(self).rom,
            final(self).sram == old(self).sram,
            final(self).current_rom_bank == old(self).current_rom_bank,
            final(self).current_rom_bank_start == old(self).current_rom_bank_start,
            final(self).current_sram_bank == old(self).current_sram_bank,
            final(self).sram_enabled == old(self).sram_enabled,
    {
        let banking_mode = banking_mode & 1 == 1;
        self.banking_mode = banking_mode;
    }

    pub fn read_byte(&self, index: u16) -> (r: u8)
        requires
            self.wf(),
            self.read_ok(index),
        ensures
            r == self.read_spec(index),
    {
        if index < ROM_BANK_0_END {
            self.rom[index as usize]
        } else if SRAM_START <= index && index < SRAM_END {
            // Only allow reads if SRAM has been enabled.
            if self.sram_enabled {
                let sram = self.nth_sram_bank(self.current_sram_bank);
                let sram_index = index as usize - 0xA000;
                sram[sram_index]
            } else {
                0xFF
            }
        } else {
            let rom_index = self.current_rom_bank_start + index as usize;
            self.rom[rom_index]
        }
    }

    /// What a write of `value` to `index` does: `n` is the controller after
    /// the write, `o` before it.
    pub open spec fn written(o: Self, n: Self, index: u16, value: u8) -> bool {
        &&& (n.wf())
        &&& (n.rom == o.rom)
        // RAM enable
        &&& (index < 0x2000 ==> n.sram_enabled == (value & 0x0F == 0x0A)
            && n.current_rom_bank == o.current_rom_bank
            && n.current_sram_bank == o.current_sram_bank
            && n.banking_mode == o.banking_mode
            && n.sram@ == o.sram@)
        // ROM bank number
        &&& (0x2000 <= index < 0x4000 ==> n.current_rom_bank == (if value & MBC1_ROM_BANK_MASK == 0 {
            1
            } else {
            value & MBC1_ROM_BANK_MASK
            }) && n.sram_enabled == o.sram_enabled
            && n.current_sram_bank == o.current_sram_bank
            && n.banking_mode == o.banking_mode
            && n.sram@ == o.sram@)
        // RAM bank number (only in banking mode 1)
        &&& (0x4000 <= index < 0x6000 ==> n.current_sram_bank == (if !o.banking_mode {
            o.current_sram_bank
            } else if o.rom@[RAM_SIZE_ADDR as int] == 2 {
            0
            } else {
            value & MBC1_SRAM_BANK_MASK
            }) && n.sram_enabled == o.sram_enabled
            && n.current_rom_bank == o.current_rom_bank
            && n.banking_mode == o.banking_mode
            && n.sram@ == o.sram@)
        // Banking mode select
        &&& (0x6000 <= index < 0x8000 ==> n.banking_mode == (value & 1 == 1)
            && n.sram_enabled == o.sram_enabled
            && n.current_rom_bank == o.current_rom_bank
            && n.current_sram_bank == o.current_sram_bank
            && n.sram@ == o.sram@)
        // SRAM
        &&& (SRAM_START <= index < SRAM_END ==> n.sram@ == (if o.sram_enabled {
            o.sram@.update(o.current_sram_bank * RAM_BANK_SIZE + (index - 0xA000), value)
            } else {
            o.sram@
            }) && n.sram_enabled == o.sram_enabled
            && n.current_rom_bank == o.current_rom_bank
            && n.current_sram_bank == o.current_sram_bank
            && n.banking_mode == o.banking_mode)
    }

    pub fn write_byte(&mut self, index: u16, value: u8)
        requires
            old(self).wf(),
            old(self).write_ok(index),
        ensures
            Self::written(*old(self), *final(self), index, value),
    {
        if index < 0x2000 {
            // MBC1: RAM enable
            if value & 0x0F == 0xA {
                self.sram_enabled = true;
                return;
            }
            self.sram_enabled = false;
        } else if index < 0x4000 {
            // MBC1: ROM bank number
            self.update_rom_bank(value);
        } else if index < 0x6000 {
            // MBC1: RAM bank number or upper bits of the ROM bank number
            if self.banking_mode {
                self.update_ram_bank(value);
            }
        } else if index < 0x8000 {
            // MBC1: banking mode select
            self.set_banking_mode(value);
        } else {
            // MBC1: SRAM; only written while enabled.
            if self.sram_enabled {
                let bank = self.current_sram_bank;
                self.set_sram_byte(bank, index as usize - 0xA000, value);
            }
        }
    }
}

impl Default for Mbc1 {
    fn default() -> (r: Self)
        ensures
            r.rom@.len() == 0,
            r.sram@.len() == 0,
            r.current_rom_bank == 1,
            r.current_rom_bank_start == 0,
            r.current_sram_bank == 0,
            !r.sram_enabled,
            !r.banking_mode,
    {
        Mbc1 {
            rom: Vec::new(),
            sram: Vec::new(),
            current_rom_bank: 1,
            current_rom_bank_start: 0,
            current_sram_bank: 0,
            sram_enabled: false,
            banking_mode: false,
        }
    }
}

} // verus!
