//! MBC5: up to 8 MiB of ROM (a 9-bit bank number) and banked SRAM.
use vstd::prelude::*;
use crate::hw_constants::{ROM_BANK_0_END, SRAM_END, SRAM_START};
use crate::interpreter::mbc::mbc1::copy_rom;

verus! {

pub const SRAM_SIZE_ADDR: usize = 0x0149;
pub const ROM_BANK_SIZE: usize = 0x4000;
pub const SRAM_BANK_SIZE: usize = 0x2000;
pub const MBC5_SRAM_BANK_MASK: u8 = 0b0000_1111;

pub struct Mbc5 {
    pub ram_enabled: bool,
    pub rom: Vec<u8>,
    pub sram: Vec<u8>,
    pub current_rom_bank: u16,
    pub current_rom_bank_start: usize,
    pub current_ram_bank: u8,
}

/// Bytes of SRAM for a RAM-size header byte: one 8 KiB bank for 2, four for
/// 3, none otherwise.
pub open spec fn mbc5_sram_len(ram_size: u8) -> nat {
    if ram_size == 2 { 0x2000 } else if ram_size == 3 { 0x8000 } else { 0 }
}

/// The bank number a write selects, reduced modulo the number of 16 KiB banks.
pub open spec fn constrain_bank(bank_number: u16, rom_len: nat) -> u16 {
    (bank_number % (rom_len / (ROM_BANK_SIZE as nat)) as u16) as u16
}

impl Mbc5 {
    pub open spec fn wf(self) -> bool {
        &&& self.rom@.len() > SRAM_SIZE_ADDR
        &&& self.current_rom_bank_start == ROM_BANK_SIZE * self.current_rom_bank
        &&& self.current_ram_bank < 16
    }

    pub open spec fn read_ok(self, index: u16) -> bool {
        if index < ROM_BANK_0_END {
            index < self.rom@.len()
        } else if SRAM_START <= index < SRAM_END {
            self.ram_enabled ==> (self.current_ram_bank + 1) * SRAM_BANK_SIZE <= self.sram@.len()
        } else {
            self.current_rom_bank_start + (index - 0x4000) < self.rom@.len()
        }
    }

    /// ROM bank 0 below 0x4000; SRAM of the current bank (0xFF while
    /// disabled) in 0xA000..0xC000; otherwise the current ROM bank.
    pub open spec fn read_spec(self, index: u16) -> u8 {
        if index < ROM_BANK_0_END {
            self.rom@[index as int]
        } else if SRAM_START <= index < SRAM_END {
            if self.ram_enabled {
                self.sram@[self.current_ram_bank * SRAM_BANK_SIZE + (index - 0xA000)]
            } else {
                0xFF
            }
        } else {
            self.rom@[ROM_BANK_SIZE * self.current_rom_bank + (index - 0x4000)]
        }
    }

    /// Writes go to the registers below 0x8000 and to SRAM; a bank switch
    /// needs at least one, and at most 65535, whole ROM banks.
    pub open spec fn write_ok(self, index: u16) -> bool {
        &&& index < 0x8000 || SRAM_START <= index < SRAM_END
        &&& 0x2000 <= index < 0x4000 ==> ROM_BANK_SIZE <= self.rom@.len() && self.rom@.len()
            / (ROM_BANK_SIZE as nat) <= 0xFFFF
        &&& (SRAM_START <= index < SRAM_END && self.ram_enabled) ==> (self.current_ram_bank + 1)
            * SRAM_BANK_SIZE <= self.sram@.len()
    }

    pub fn from_rom(rom: &[u8]) -> (r: Self)
        requires
            rom@.len() > SRAM_SIZE_ADDR,
        ensures
            r.wf(),
            r.rom@ == rom@,
            r.sram@ == Seq::new(mbc5_sram_len(rom@[SRAM_SIZE_ADDR as int]), |i: int| 0u8),
            r.current_rom_bank == 1,
            r.current_ram_bank == 0,
            !r.ram_enabled,
    {
        let sram: Vec<u8> = match rom[SRAM_SIZE_ADDR] {
            2 => vec![0; SRAM_BANK_SIZE],
            3 => vec![0; SRAM_BANK_SIZE * 4],
            _ => Vec::new(),
        };
        assert(sram@ =~= Seq::new(mbc5_sram_len(rom@[SRAM_SIZE_ADDR as int]), |i: int| 0u8));
        Mbc5 {
            ram_enabled: false,
            rom: copy_rom(rom),
            sram,
            current_rom_bank: 1,
            current_rom_bank_start: 0x4000,
            current_ram_bank: 0,
        }
    }

    fn ram_size(&self) -> (r: u8)
        requires
            self.wf(),
        ensures
            r == self.rom@[SRAM_SIZE_ADDR as int],
    {
        self.rom[SRAM_SIZE_ADDR]
    }

    /// Select ROM bank `bank_number` modulo the number of banks (bank 0 may
    /// be mapped here).
    fn update_rom_bank(&mut self, bank_number: u16)
        requires
            ROM_BANK_SIZE <= old(self).rom@.len(),
            old(self).rom@.len() / (ROM_BANK_SIZE as nat) <= 0xFFFF,
        ensures
            final(self).current_rom_bank == constrain_bank(bank_number, old(self).rom@.len()),
            final(self).current_rom_bank_start == ROM_BANK_SIZE * final(self).current_rom_bank,
            final(self).rom == old(self).rom,
            final(self).sram == old(self).sram,
            final(self).current_ram_bank == old(self).current_ram_bank,
            final(self).ram_enabled == old(self).ram_enabled,
    {
        // Constrain the bank number to the number of ROM banks.
        let num_rom_banks = (self.rom.len() / ROM_BANK_SIZE) as u16;
        let bank_number = bank_number % num_rom_banks;
        self.current_rom_bank = bank_number;
        self.current_rom_bank_start = 0x4000 * bank_number as usize;
    }

    /// Select SRAM bank `bank_number & 0xF`, or bank 0 when there is one bank.
    fn update_ram_bank(&mut self, bank_number: u8)
        requires
            old(self).wf(),
        ensures
            final(self).current_ram_bank == if old(self).rom@[SRAM_SIZE_ADDR as int] == 2 {
                0
            } else {
                bank_number & MBC5_SRAM_BANK_MASK
            },
            final(self).current_ram_bank < 16,
            final(self).rom == old(self).rom,
            final(self).sram == old(self).sram,
            final(self).current_rom_bank == old(self).current_rom_bank,
            final(self).current_rom_bank_start == old(self).current_rom_bank_start,
            final(self).ram_enabled == old(self).ram_enabled,
    {
        proof { crate::bits::lemma_low_bits_bounds(bank_number); }
        let mut bank_number = bank_number & MBC5_SRAM_BANK_MASK;
        if self.ram_size() == 2 {
            bank_number = 0;
        }
        self.current_ram_bank = bank_number;
    }

    /// The bytes of SRAM bank `bank_number`.
    fn nth_ram_bank(&self, bank_number: u8) -> (r: &[u8])
        requires
            (bank_number + 1) * SRAM_BANK_SIZE <= self.sram@.len(),
        ensures
            r@ == self.sram@.subrange(
                bank_number * SRAM_BANK_SIZE,
                bank_number * SRAM_BANK_SIZE + SRAM_BANK_SIZE,
            ),
    {
        let start_addr = SRAM_BANK_SIZE * bank_number as usize;
        let end_addr = start_addr + SRAM_BANK_SIZE;
        &self.sram[start_addr..end_addr]
    }

    pub fn read_byte(&self, index: u16) -> (r: u8)
        requires
            self.wf(),
            self.read_ok(index),
        ensures
            r == self.read_spec(index),
    {
        if index < ROM_BANK_0_END {
            self.rom[index as usize]
        } else if SRAM_START <= index && index < SRAM_END {
            if self.ram_enabled {
                let sram = self.nth_ram_bank(self.current_ram_bank);
                let sram_index = index as usize - 0xA000;
                sram[sram_index]
            } else {
                0xFF
            }
        } else {
            let rom_index = self.current_rom_bank_start + (index - 0x4000) as usize;
            self.rom[rom_index]
        }
    }

    /// What a write of `value` to `index` does: `n` is the controller after
    /// the write, `o` before it.
    pub open spec fn written(o: Self, n: Self, index: u16, value: u8) -> bool {
        &&& (n.wf())
        &&& (n.rom == o.rom)
        // RAM enable
        &&& (index < 0x2000 ==> n.ram_enabled == (value & 0x0F == 0x0A)
            && n.current_rom_bank == o.current_rom_bank
            && n.current_ram_bank == o.current_ram_bank
            && n.sram@ == o.sram@)
        // Low 8 bits of the ROM bank number, keeping bit 8
        &&& (0x2000 <= index < 0x3000 ==> n.current_rom_bank == constrain_bank(
            (o.current_rom_bank & 0x0100) | (value as u16),
            o.rom@.len(),
            ) && n.ram_enabled == o.ram_enabled
            && n.current_ram_bank == o.current_ram_bank
            && n.sram@ == o.sram@)
        // Bit 8 of the ROM bank number, keeping the low 8 bits
        &&& (0x3000 <= index < 0x4000 ==> n.current_rom_bank == constrain_bank(
            (o.current_rom_bank & 0xFF) | (((value as u16) & 1) << 8),
            o.rom@.len(),
            ) && n.ram_enabled == o.ram_enabled
            && n.current_ram_bank == o.current_ram_bank
            && n.sram@ == o.sram@)
        // RAM bank number
        &&& (0x4000 <= index < 0x6000 ==> n.current_ram_bank == (if o.rom@[SRAM_SIZE_ADDR as int] == 2 {
            0
            } else {
            value & MBC5_SRAM_BANK_MASK
            }) && n.ram_enabled == o.ram_enabled
            && n.current_rom_bank == o.current_rom_bank
            && n.sram@ == o.sram@)
        &&& (0x6000 <= index < 0x8000 ==> n.ram_enabled == o.ram_enabled
            && n.current_rom_bank == o.current_rom_bank
            && n.current_ram_bank == o.current_ram_bank
            && n.sram@ == o.sram@)
        // SRAM
        &&& (SRAM_START <= index < SRAM_END ==> n.sram@ == (if o.ram_enabled {
            o.sram@.update(o.current_ram_bank * SRAM_BANK_SIZE + (index - 0xA000), value)
            } else {
            o.sram@
            }) && n.ram_enabled == o.ram_enabled
            && n.current_rom_bank == o.current_rom_bank
            && n.current_ram_bank == o.current_ram_bank)
    }

    pub fn write_byte(&mut self, index: u16, value: u8)
        requires
            old(self).wf(),
            old(self).write_ok(index),
        ensures
            Self::written(*old(self), *final(self), index, value),
    {
        if index < 0x2000 {
            // RAM enable
            if value & 0x0F == 0xA {
                self.ram_enabled = true;
                return;
            }
            self.ram_enabled = false;
        } else if index < 0x3000 {
            // Lower 8 bits of the ROM bank number.
            let prev_8th_bit = self.current_rom_bank & 0x0100;
            let bank_number = prev_8th_bit | (value as u16);
            self.update_rom_bank(bank_number);
        } else if index < 0x4000 {
            // 8th bit of the ROM bank number.
            let prev_lo_byte = self.current_rom_bank & 0xFF;
            let bank_number = prev_lo_byte | (((value as u16) & 1) << 8);
            self.update_rom_bank(bank_number);
        } else if index < 0x6000 {
            self.update_ram_bank(value);
        } else if index < 0x8000 {
        } else {
            // SRAM; only written while enabled.
            if self.ram_enabled {
                let start_addr = SRAM_BANK_SIZE * self.current_ram_bank as usize;
                self.sram.set(start_addr + (index as usize - 0xA000), value);
            }
        }
    }
}

impl Default for Mbc5 {
    fn default() -> (r: Self)
        ensures
            r.rom@.len() == 0,
            r.sram@.len() == 0,
            r.current_rom_bank == 1,
            r.current_rom_bank_start == 0x4000,
            r.current_ram_bank == 0,
            !r.ram_enabled,
    {
        Mbc5 {
            ram_enabled: false,
            rom: Vec::new(),
            sram: Vec::new(),
            current_rom_bank: 1,
            current_rom_bank_start: 0x4000,
            current_ram_bank: 0,
        }
    }
}

/// The number of 16 KiB banks in a ROM of `rom_len` bytes.
pub open spec fn bank_count(rom_len: nat) -> int {
    (rom_len / (ROM_BANK_SIZE as nat)) as int
}

/// A write to 0x3000..0x3FFF sets bit 8 of the ROM bank number from bit 0
/// of the value and keeps its low 8 bits; the number is then taken modulo
/// the ROM's bank count.
pub proof fn lemma_bank_high_bit_write(o: Mbc5, n: Mbc5, index: u16, value: u8)
    requires
        o.wf(),
        o.write_ok(index),
        0x3000 <= index < 0x4000,
        Mbc5::written(o, n, index, value),
    ensures
        n.current_rom_bank as int == (o.current_rom_bank as int % 256 + 256 * (value as int % 2)) % bank_count(
            o.rom@.len(),
        ),
{
    let x = o.current_rom_bank;
    let v = value as u16;
    assert(((x & 0xFF) | ((v & 1) << 8)) == x % 256 + 256 * (v % 2)) by (bit_vector)
        requires
            v < 256,
    ;
}

/// A write to 0x2000..0x2FFF selects the low 8 bits of the ROM bank number
/// and keeps bit 8; the number is then taken modulo the ROM's bank count.
pub proof fn lemma_bank_low_bits_write(o: Mbc5, n: Mbc5, index: u16, value: u8)
    requires
        o.wf(),
        o.write_ok(index),
        0x2000 <= index < 0x3000,
        Mbc5::written(o, n, index, value),
    ensures
        n.current_rom_bank as int == ((if o.current_rom_bank as int % 512 >= 256 { 256int } else { 0 })
            + value as int) % bank_count(o.rom@.len()),
{
    let x = o.current_rom_bank;
    let v = value as u16;
    assert(((x & 0x0100) | v) == (if x % 512 >= 256 { 256u16 } else { 0u16 }) + v) by (bit_vector)
        requires
            v < 256,
    ;
}

/// Selecting a bank the usual way, low byte at 0x2000 and then bit 8 at
/// 0x3000, selects bank `low + 256 * high` (modulo the bank count), on a
/// ROM of at most 256 banks whose current bank is in range.
pub proof fn lemma_select_bank(o: Mbc5, m: Mbc5, n: Mbc5, i1: u16, low: u8, i2: u16, high: u8)
    requires
        o.wf(),
        o.write_ok(i1),
        0x2000 <= i1 < 0x3000,
        0x3000 <= i2 < 0x4000,
        bank_count(o.rom@.len()) <= 256,
        o.current_rom_bank < bank_count(o.rom@.len()),
        Mbc5::written(o, m, i1, low),
        Mbc5::written(m, n, i2, high),
    ensures
        n.current_rom_bank as int == (low as int + 256 * (high as int % 2)) % bank_count(o.rom@.len()),
{
    let b = bank_count(o.rom@.len());
    lemma_bank_low_bits_write(o, m, i1, low);
    assert(m.rom@ == o.rom@);
    assert(m.wf() && m.write_ok(i2));
    lemma_bank_high_bit_write(m, n, i2, high);
    let l = low as int;
    let h = 256 * (high as int % 2);
    assert(m.current_rom_bank as int == l % b);
    vstd::arithmetic::div_mod::lemma_mod_bound(l, b);
    assert(m.current_rom_bank as int % 256 == m.current_rom_bank as int);
    vstd::arithmetic::div_mod::lemma_add_mod_noop(l, h, b);
    vstd::arithmetic::div_mod::lemma_add_mod_noop(l % b, h, b);
    vstd::arithmetic::div_mod::lemma_mod_twice(l, b);
}

} // verus!
