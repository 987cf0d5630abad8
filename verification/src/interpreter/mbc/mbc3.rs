//! MBC3: up to 2 MiB of ROM, banked SRAM, and a real-time clock (RTC).
use vstd::prelude::*;
use std::time::{Duration, SystemTime};
use crate::hw_constants::{ROM_BANK_0_END, SRAM_END, SRAM_START};
use crate::interpreter::mbc::mbc1::copy_rom;

verus! {

pub const RAM_SIZE_ADDR: usize = 0x0149;
pub const RAM_BANK_SIZE: usize = 0x2000;
/// For MBC3 all 7 bits of the ROM bank number are written directly.
pub const MBC3_ROM_BANK_MASK: u8 = 0b0111_1111;

#[verifier::external_type_specification]
#[verifier::external_body]
pub struct ExSystemTime(std::time::SystemTime);

/// Calls `SystemTime::now`; nothing is promised of the time it returns.
#[verifier::external_body]
fn system_time_now() -> SystemTime {
    SystemTime::now()
}

/// Calls `SystemTime::duration_since`: the time from `earlier` to `now`, or
/// `None` where `earlier` is later than `now` (the clock went backwards).
/// The duration depends on the system clock, so nothing is promised of it.
#[verifier::external_body]
fn time_since(now: &SystemTime, earlier: &SystemTime) -> Option<Duration> {
    match now.duration_since(*earlier) {
        Ok(elapsed) => Some(elapsed),
        Err(_) => None,
    }
}

/// Calls `Duration::as_secs`: the whole seconds of `d`. A duration here only
/// ever comes from the system clock, so nothing is promised of the value.
#[verifier::external_body]
fn duration_secs(d: &Duration) -> u64 {
    d.as_secs()
}

/// Calls `Duration::subsec_nanos`: the fractional part of `d` in
/// nanoseconds, which std documents as less than one billion.
#[verifier::external_body]
fn duration_subsec_nanos(d: &Duration) -> (r: u32)
    ensures
        r < NANOS_PER_SEC,
{
    d.subsec_nanos()
}

pub const NANOS_PER_SEC: u32 = 1_000_000_000;

/// A count of seconds and nanoseconds, in nanoseconds.
pub open spec fn in_nanos(secs: u64, nanos: u32) -> int {
    secs * (NANOS_PER_SEC as int) + nanos
}

/// Advancing a count adds the two counts.
pub proof fn lemma_advanced_adds(secs: u64, nanos: u32, delta_secs: u64, delta_nanos: u32)
    requires
        advanced(secs, nanos, delta_secs, delta_nanos) is Some,
    ensures
        ({
            let (s, n) = advanced(secs, nanos, delta_secs, delta_nanos)->0;
            &&& in_nanos(s, n) == in_nanos(secs, nanos) + in_nanos(delta_secs, delta_nanos)
            &&& n < NANOS_PER_SEC
        }),
{
    let t = nanos + delta_nanos;
    let nn = NANOS_PER_SEC as int;
    vstd::arithmetic::div_mod::lemma_fundamental_div_mod(t, nn);
    assert((secs + delta_secs + t / nn) * nn == secs * nn + delta_secs * nn + (t / nn) * nn)
        by (nonlinear_arith);
}

/// A count of `secs` seconds and `nanos` nanoseconds advanced by `delta_secs`
/// and `delta_nanos`, with the nanoseconds carried into seconds; `None` where
/// the seconds no longer fit in 64 bits.
pub open spec fn advanced(secs: u64, nanos: u32, delta_secs: u64, delta_nanos: u32) -> Option<(u64, u32)> {
    let total_nanos = nanos + delta_nanos;
    let total_secs = secs + delta_secs + total_nanos / (NANOS_PER_SEC as int);
    if total_secs > u64::MAX {
        None
    } else {
        Some((total_secs as u64, (total_nanos % (NANOS_PER_SEC as int)) as u32))
    }
}

/// The registers of the RTC. The day counter has 9 bits: the low 8 in
/// `days_lo`, the most significant in bit 0 of `days_hi`, whose bit 6 halts the
/// clock and bit 7 is the day counter's carry.
#[derive(Clone, Copy, PartialEq, Eq, Structural, Debug)]
pub struct RtcRegs {
    pub seconds: u8,
    pub minutes: u8,
    pub hours: u8,
    pub days_lo: u8,
    pub days_hi: u8,
}

/// The registers showing `secs` elapsed seconds, keeping the halt and carry
/// bits (and the unused bits) of `days_hi`.
pub open spec fn regs_for_secs(prev: RtcRegs, secs: u64) -> RtcRegs {
    let minutes = secs / 60;
    let hours = minutes / 60;
    let days = hours / 24;
    RtcRegs {
        seconds: (secs % 60) as u8,
        minutes: (minutes % 60) as u8,
        hours: (hours % 24) as u8,
        days_lo: (days % 256) as u8,
        days_hi: if (days / 256) % 2 == 1 { prev.days_hi | 1 } else { prev.days_hi & 0xFE },
    }
}

/// The elapsed time, in seconds, that a set of registers shows.
pub open spec fn regs_secs(r: RtcRegs) -> int {
    r.seconds + 60 * r.minutes + 3600 * r.hours + 86400 * (r.days_lo + 256 * (r.days_hi % 2))
}

impl RtcRegs {
    pub fn update(&mut self, secs: u64)
        ensures
            *final(self) == regs_for_secs(*old(self), secs),
    {
        let minutes = secs / 60;
        let hours = minutes / 60;
        let days = hours / 24;

        self.seconds = (secs % 60) as u8;
        self.minutes = (minutes % 60) as u8;
        self.hours = (hours % 24) as u8;
        let lo = days & 0xFF;
        let msb = days & (1u64 << 8) != 0;
        assert(lo == days % 256 && (msb == ((days / 256) % 2 == 1))) by (bit_vector)
            requires
                lo == days & 0xFFu64,
                msb == (days & (1u64 << 8u64) != 0u64);
        self.days_lo = lo as u8;
        // Set `day_msb` (bit 0) to the 8th bit of `days`.
        if msb {
            self.days_hi = self.days_hi | 1;
        } else {
            self.days_hi = self.days_hi & 0xFE;
        }
    }

    pub fn halt(&self) -> (r: bool)
        ensures
            r == crate::bits::bit_of(self.days_hi, 6),
    {
        proof { crate::bits::lemma_bit_masks(self.days_hi); }
        self.days_hi & 0b0100_0000 == 0b0100_0000
    }
}

impl Default for RtcRegs {
    fn default() -> (r: Self)
        ensures
            r == (RtcRegs { seconds: 0, minutes: 0, hours: 0, days_lo: 0, days_hi: 0 }),
    {
        RtcRegs { seconds: 0, minutes: 0, hours: 0, days_lo: 0, days_hi: 0 }
    }
}

/// The registers count elapsed time: for under 512 days, the seconds they show
/// are the seconds written.
pub proof fn lemma_regs_count_seconds(prev: RtcRegs, secs: u64)
    requires
        secs < 512 * 86400,
    ensures
        regs_secs(regs_for_secs(prev, secs)) == secs,
{
    let r = regs_for_secs(prev, secs);
    let minutes = secs / 60;
    let hours = minutes / 60;
    let days = hours / 24;
    assert(r.days_hi % 2 == (days / 256) % 2) by {
        let h = prev.days_hi;
        assert((h | 1) % 2 == 1 && (h & 0xFE) % 2 == 0) by (bit_vector);
    }
    assert(days < 512) by {
        assert(days == secs / 86400) by {
            vstd::arithmetic::div_mod::lemma_div_denominator(secs as int, 60, 60);
            vstd::arithmetic::div_mod::lemma_div_denominator(secs as int, 3600, 24);
        }
    }
    assert(days / 256 < 2);
    assert(days % 256 + 256 * ((days / 256) % 2) == days);
    assert(secs == secs % 60 + 60 * minutes) by (nonlinear_arith)
        requires minutes == secs / 60;
    assert(minutes == minutes % 60 + 60 * hours) by (nonlinear_arith)
        requires hours == minutes / 60;
    assert(hours == hours % 24 + 24 * days) by (nonlinear_arith)
        requires days == hours / 24;
}

pub struct Rtc {
    /// Whole seconds counted so far.
    pub secs: u64,
    /// Nanoseconds counted beyond `secs`.
    pub nanos: u32,
    pub last_ticked: SystemTime,
    pub regs: RtcRegs,
}

impl Default for Rtc {
    fn default() -> (r: Self)
        ensures
            r.regs == (RtcRegs { seconds: 0, minutes: 0, hours: 0, days_lo: 0, days_hi: 0 }),
            r.secs == 0,
            r.nanos == 0,
    {
        Rtc { secs: 0, nanos: 0, last_ticked: system_time_now(), regs: RtcRegs::default() }
    }
}

impl Rtc {
    /// Add `delta_secs` seconds and `delta_nanos` nanoseconds to the count;
    /// where the seconds would overflow, the count stays as it was.
    pub fn advance(&mut self, delta_secs: u64, delta_nanos: u32) -> (r: bool)
        ensures
            r == advanced(old(self).secs, old(self).nanos, delta_secs, delta_nanos) is Some,
            match advanced(old(self).secs, old(self).nanos, delta_secs, delta_nanos) {
                Some((s, n)) => final(self).secs == s && final(self).nanos == n,
                None => final(self).secs == old(self).secs && final(self).nanos == old(self).nanos,
            },
            final(self).regs == old(self).regs,
            final(self).last_ticked == old(self).last_ticked,
    {
        let total_nanos: u64 = self.nanos as u64 + delta_nanos as u64;
        let carry: u64 = total_nanos / (NANOS_PER_SEC as u64);
        let new_nanos: u64 = total_nanos % (NANOS_PER_SEC as u64);
        match self.secs.checked_add(delta_secs) {
            Some(partial) => match partial.checked_add(carry) {
                Some(total) => {
                    self.secs = total;
                    self.nanos = new_nanos as u32;
                    true
                },
                None => false,
            },
            None => false,
        }
    }

    /// The rest of an update once the elapsed time is known: add `elapsed`
    /// (seconds and nanoseconds; `None` where the clock went backwards) to
    /// the count, show the count in the registers unless the clock is
    /// halted, and take `now` as the new reference time.
    pub fn update_with(&mut self, elapsed: Option<(u64, u32)>, now: SystemTime)
        ensures
            ({
                let kept = (old(self).secs, old(self).nanos);
                let counted = match elapsed {
                    Some((ds, dn)) => match advanced(old(self).secs, old(self).nanos, ds, dn) {
                        Some(p) => p,
                        None => kept,
                    },
                    None => kept,
                };
                final(self).secs == counted.0 && final(self).nanos == counted.1
            }),
            in_nanos(final(self).secs, final(self).nanos) >= in_nanos(old(self).secs, old(self).nanos),
            crate::bits::bit_of(old(self).regs.days_hi, 6) ==> final(self).regs == old(self).regs,
            !crate::bits::bit_of(old(self).regs.days_hi, 6) ==> final(self).regs == regs_for_secs(
                old(self).regs,
                final(self).secs,
            ),
            final(self).last_ticked == now,
    {
        if let Some((delta_secs, delta_nanos)) = elapsed {
            self.advance(delta_secs, delta_nanos);
            proof {
                if advanced(old(self).secs, old(self).nanos, delta_secs, delta_nanos) is Some {
                    lemma_advanced_adds(old(self).secs, old(self).nanos, delta_secs, delta_nanos);
                    assert(in_nanos(delta_secs, delta_nanos) >= 0) by (nonlinear_arith);
                }
            }
        }
        // Update the register values if the RTC isn't halted.
        if !self.regs.halt() {
            let secs = self.secs;
            self.regs.update(secs);
        }
        self.last_ticked = now;
    }

    /// Add the time since the last update to the count and, unless the clock
    /// is halted, show it in the registers. How much time that is comes from
    /// the system clock: the count never goes back, and the registers show
    /// the whole seconds of the count.
    pub fn update(&mut self)
        ensures
            in_nanos(final(self).secs, final(self).nanos) >= in_nanos(old(self).secs, old(self).nanos),
            crate::bits::bit_of(old(self).regs.days_hi, 6) ==> final(self).regs == old(self).regs,
            !crate::bits::bit_of(old(self).regs.days_hi, 6) ==> final(self).regs == regs_for_secs(
                old(self).regs,
                final(self).secs,
            ),
    {
        let now = system_time_now();
        let elapsed = match time_since(&now, &self.last_ticked) {
            Some(d) => Some((duration_secs(&d), duration_subsec_nanos(&d))),
            None => None,
        };
        self.update_with(elapsed, now);
    }

    /// Read RTC register `selected` (0x08 seconds .. 0x0C day high).
    pub fn read(&self, selected: u8) -> (r: u8)
        requires
            0x08 <= selected <= 0x0C,
        ensures
            r == rtc_reg(self.regs, selected),
    {
        match selected {
            0x08 => self.regs.seconds,
            0x09 => self.regs.minutes,
            0x0A => self.regs.hours,
            0x0B => self.regs.days_lo,
            _ => self.regs.days_hi,
        }
    }

    /// Write RTC register `selected`; un-halting the clock restarts its
    /// reference time.
    pub fn write(&mut self, selected: u8, value: u8)
        requires
            0x08 <= selected <= 0x0C,
        ensures
            rtc_reg(final(self).regs, selected) == value,
            forall|other: u8| 0x08 <= other <= 0x0C && other != selected ==> rtc_reg(final(self).regs, other)
                == rtc_reg(old(self).regs, other),
    {
        match selected {
            0x08 => self.regs.seconds = value,
            0x09 => self.regs.minutes = value,
            0x0A => self.regs.hours = value,
            0x0B => self.regs.days_lo = value,
            _ => {
                let new_halt = value & 0b0100_0000 == 0b0100_0000;
                if self.regs.halt() && !new_halt {
                    self.last_ticked = system_time_now();
                }
                self.regs.days_hi = value;
            },
        }
    }
}

/// RTC register `selected`: 0x08 seconds, 0x09 minutes, 0x0A hours, 0x0B
/// low bits of the day counter, 0x0C the day counter's high register.
pub open spec fn rtc_reg(r: RtcRegs, selected: u8) -> u8 {
    if selected == 0x08 { r.seconds }
    else if selected == 0x09 { r.minutes }
    else if selected == 0x0A { r.hours }
    else if selected == 0x0B { r.days_lo }
    else { r.days_hi }
}

/// Bytes of SRAM for a RAM-size header byte: 8 KiB for 2, 32 KiB for 3,
/// 64 KiB for 5, none otherwise.
pub open spec fn mbc3_sram_len(ram_size: u8) -> nat {
    if ram_size == 2 { 0x2000 } else if ram_size == 3 { 0x8000 } else if ram_size == 5 { 0x10000 } else { 0 }
}

pub struct Mbc3 {
    pub ram_and_rtc_enabled: bool,
    pub rom: Vec<u8>,
    pub sram: Vec<u8>,
    pub rtc: Rtc,
    pub rtc_latch: bool,
    pub current_rom_bank: u8,
    pub current_rom_bank_start: usize,
    pub sram_bank_or_rtc_reg: u8,
}

impl Mbc3 {
    pub open spec fn wf(self) -> bool {
        &&& self.rom@.len() > RAM_SIZE_ADDR
        &&& 1 <= self.current_rom_bank <= 0x7F
        &&& self.current_rom_bank_start == 0x4000 * (self.current_rom_bank - 1)
    }

    /// In SRAM, an enabled read needs an SRAM bank (0..8) that exists or an
    /// RTC register (8..=0xC).
    pub open spec fn sram_access_ok(self) -> bool {
        self.ram_and_rtc_enabled ==> (self.sram_bank_or_rtc_reg < 8 && (self.sram_bank_or_rtc_reg + 1)
            * RAM_BANK_SIZE <= self.sram@.len()) || (8 <= self.sram_bank_or_rtc_reg <= 0x0C)
    }

    pub open spec fn read_ok(self, index: u16) -> bool {
        if index < ROM_BANK_0_END {
            index < self.rom@.len()
        } else if SRAM_START <= index < SRAM_END {
            self.sram_access_ok()
        } else {
            self.current_rom_bank_start + index < self.rom@.len()
        }
    }

    /// ROM bank 0 below 0x4000; in 0xA000..0xC000 the selected SRAM bank or
    /// RTC register (0xFF while disabled); otherwise the current ROM bank.
    pub open spec fn read_spec(self, index: u16) -> u8 {
        if index < ROM_BANK_0_END {
            self.rom@[index as int]
        } else if SRAM_START <= index < SRAM_END {
            if !self.ram_and_rtc_enabled {
                0xFF
            } else if self.sram_bank_or_rtc_reg < 8 {
                self.sram@[self.sram_bank_or_rtc_reg * RAM_BANK_SIZE + (index - 0xA000)]
            } else {
                rtc_reg(self.rtc.regs, self.sram_bank_or_rtc_reg)
            }
        } else {
            self.rom@[0x4000 * self.current_rom_bank + (index - 0x4000)]
        }
    }

    pub open spec fn write_ok(self, index: u16) -> bool {
        &&& index < 0x8000 || SRAM_START <= index < SRAM_END
        &&& SRAM_START <= index < SRAM_END ==> self.sram_access_ok()
    }

    pub fn from_rom(rom: &[u8]) -> (r: Self)
        requires
            rom@.len() > RAM_SIZE_ADDR,
        ensures
            r.wf(),
            r.rom@ == rom@,
            r.sram@ == Seq::new(mbc3_sram_len(rom@[RAM_SIZE_ADDR as int]), |i: int| 0u8),
            r.current_rom_bank == 1,
            r.sram_bank_or_rtc_reg == 0,
            !r.ram_and_rtc_enabled,
            r.rtc_latch,
    {
        let sram: Vec<u8> = match rom[RAM_SIZE_ADDR] {
            2 => vec![0; RAM_BANK_SIZE],
            3 => vec![0; RAM_BANK_SIZE * 4],
            5 => vec![0; RAM_BANK_SIZE * 8],
            _ => Vec::new(),
        };
        assert(sram@ =~= Seq::new(mbc3_sram_len(rom@[RAM_SIZE_ADDR as int]), |i: int| 0u8));
        Mbc3 {
            ram_and_rtc_enabled: false,
            rom: copy_rom(rom),
            sram,
            rtc: Rtc::default(),
            rtc_latch: true,
            current_rom_bank: 1,
            current_rom_bank_start: 0,
            sram_bank_or_rtc_reg: 0,
        }
    }

    fn sram_size(&self) -> (r: u8)
        requires
            self.wf(),
        ensures
            r == self.rom@[RAM_SIZE_ADDR as int],
    {
        self.rom[RAM_SIZE_ADDR]
    }

    /// Select ROM bank `bank_number & 0x7F`, where bank 0 selects bank 1.
    fn update_rom_bank(&mut self, bank_number: u8)
        ensures
            final(self).current_rom_bank == if bank_number & MBC3_ROM_BANK_MASK == 0 {
                1
            } else {
                bank_number & MBC3_ROM_BANK_MASK
            },
            1 <= final(self).current_rom_bank <= 0x7F,
            final(self).current_rom_bank_start == 0x4000 * (final(self).current_rom_bank - 1),
            final(self).rom == old(self).rom,
            final(self).sram == old(self).sram,
            final(self).rtc == old(self).rtc,
            final(self).rtc_latch == old(self).rtc_latch,
            final(self).ram_and_rtc_enabled == old(self).ram_and_rtc_enabled,
            final(self).sram_bank_or_rtc_reg == old(self).sram_bank_or_rtc_reg,
    {
        proof { crate::bits::lemma_low_bits_bounds(bank_number); }
        let mut bank_number = bank_number & MBC3_ROM_BANK_MASK;
        if bank_number == 0 {
            bank_number = 1;
        }
        self.current_rom_bank = bank_number;
        self.current_rom_bank_start = 0x4000 * (bank_number as usize - 1);
    }

    /// Select an SRAM bank (below 8; bank 0 when there is one bank) or an RTC
    /// register.
    fn update_sram_bank_or_rtc_reg(&mut self, value: u8)
        requires
            old(self).wf(),
        ensures
            final(self).sram_bank_or_rtc_reg == if value < 8 && old(self).rom@[RAM_SIZE_ADDR as int] == 2 {
                0
            } else {
                value
            },
            final(self).rom == old(self).rom,
            final(self).sram == old(self).sram,
            final(self).rtc == old(self).rtc,
            final(self).rtc_latch == old(self).rtc_latch,
            final(self).ram_and_rtc_enabled == old(self).ram_and_rtc_enabled,
            final(self).current_rom_bank == old(self).current_rom_bank,
            final(self).current_rom_bank_start == old(self).current_rom_bank_start,
    {
        let mut value = value;
        if value < 0x8 && self.sram_size() == 2 {
            value = 0;
        }
        self.sram_bank_or_rtc_reg = value;
    }

    /// The bytes of SRAM bank `bank_number`.
    fn nth_sram_bank(&self, bank_number: u8) -> (r: &[u8])
        requires
            (bank_number + 1) * RAM_BANK_SIZE <= self.sram@.len(),
        ensures
            r@ == self.sram@.subrange(
                bank_number * RAM_BANK_SIZE,
                bank_number * RAM_BANK_SIZE + RAM_BANK_SIZE,
            ),
    {
        let start_addr = RAM_BANK_SIZE * bank_number as usize;
        let end_addr = start_addr + RAM_BANK_SIZE;
        &self.sram[start_addr..end_addr]
    }

    pub fn read_byte(&self, index: u16) -> (r: u8)
        requires
            self.wf(),
            self.read_ok(index),
        ensures
            r == self.read_spec(index),
    {
        if index < ROM_BANK_0_END {
            self.rom[index as usize]
        } else if SRAM_START <= index && index < SRAM_END {
            // Only allow reads if SRAM or RTC has been enabled.
            if self.ram_and_rtc_enabled {
                if self.sram_bank_or_rtc_reg < 0x8 {
                    let sram = self.nth_sram_bank(self.sram_bank_or_rtc_reg);
                    let sram_index = index as usize - 0xA000;
                    sram[sram_index]
                } else {
                    self.rtc.read(self.sram_bank_or_rtc_reg)
                }
            } else {
                0xFF
            }
        } else {
            let rom_index = self.current_rom_bank_start + index as usize;
            self.rom[rom_index]
        }
    }

    /// What a write of `value` to `index` does: `n` is the controller after
    /// the write, `o` before it.
    pub open spec fn written(o: Self, n: Self, index: u16, value: u8) -> bool {
        &&& (n.wf())
        &&& (n.rom == o.rom)
        // RAM and RTC enable
        &&& (index < 0x2000 ==> n.ram_and_rtc_enabled == (value & 0x0F == 0x0A)
            && n.current_rom_bank == o.current_rom_bank
            && n.sram_bank_or_rtc_reg == o.sram_bank_or_rtc_reg
            && n.sram@ == o.sram@ && n.rtc_latch == o.rtc_latch
            && n.rtc.regs == o.rtc.regs)
        // ROM bank number
        &&& (0x2000 <= index < 0x4000 ==> n.current_rom_bank == (if value & MBC3_ROM_BANK_MASK == 0 {
            1
            } else {
            value & MBC3_ROM_BANK_MASK
            }) && n.ram_and_rtc_enabled == o.ram_and_rtc_enabled
            && n.sram_bank_or_rtc_reg == o.sram_bank_or_rtc_reg
            && n.sram@ == o.sram@ && n.rtc_latch == o.rtc_latch
            && n.rtc.regs == o.rtc.regs)
        // SRAM bank or RTC register select
        &&& (0x4000 <= index < 0x6000 ==> n.sram_bank_or_rtc_reg == (if value < 8 && o.rom@[RAM_SIZE_ADDR as int] == 2 {
            0
            } else {
            value
            }) && n.ram_and_rtc_enabled == o.ram_and_rtc_enabled
            && n.current_rom_bank == o.current_rom_bank
            && n.sram@ == o.sram@ && n.rtc_latch == o.rtc_latch
            && n.rtc.regs == o.rtc.regs)
        // RTC latch: writing 0 then 1 latches the clock into the registers.
        &&& (0x6000 <= index < 0x8000 ==> {
            &&& n.rtc_latch == (if value == 0 { false } else if value == 1 { true } else { o.rtc_latch })
            &&& !(value == 1 && !o.rtc_latch) ==> n.rtc.regs == o.rtc.regs
            &&& (value == 1 && !o.rtc_latch && !crate::bits::bit_of(o.rtc.regs.days_hi, 6))
            ==> n.rtc.regs == regs_for_secs(o.rtc.regs, n.rtc.secs)
            &&& in_nanos(n.rtc.secs, n.rtc.nanos) >= in_nanos(o.rtc.secs, o.rtc.nanos)
            &&& crate::bits::bit_of(o.rtc.regs.days_hi, 6) ==> n.rtc.regs == o.rtc.regs
            &&& n.ram_and_rtc_enabled == o.ram_and_rtc_enabled
            &&& n.current_rom_bank == o.current_rom_bank
            &&& n.sram_bank_or_rtc_reg == o.sram_bank_or_rtc_reg
            &&& n.sram@ == o.sram@
            })
        // SRAM or RTC register
        &&& (SRAM_START <= index < SRAM_END ==> {
            &&& (o.ram_and_rtc_enabled && o.sram_bank_or_rtc_reg < 8) ==> n.sram@
            == o.sram@.update(o.sram_bank_or_rtc_reg * RAM_BANK_SIZE + (index - 0xA000), value)
            && n.rtc.regs == o.rtc.regs
            &&& (o.ram_and_rtc_enabled && o.sram_bank_or_rtc_reg >= 8) ==> n.sram@
            == o.sram@ && rtc_reg(n.rtc.regs, o.sram_bank_or_rtc_reg) == value
            && forall|other: u8| 0x08 <= other <= 0x0C && other != o.sram_bank_or_rtc_reg
            ==> rtc_reg(n.rtc.regs, other) == rtc_reg(o.rtc.regs, other)
            &&& !o.ram_and_rtc_enabled ==> n.sram@ == o.sram@
            && n.rtc.regs == o.rtc.regs
            &&& n.ram_and_rtc_enabled == o.ram_and_rtc_enabled
            &&& n.current_rom_bank == o.current_rom_bank
            &&& n.sram_bank_or_rtc_reg == o.sram_bank_or_rtc_reg
            &&& n.rtc_latch == o.rtc_latch
            })
    }

    pub fn write_byte(&mut self, index: u16, value: u8)
        requires
            old(self).wf(),
            old(self).write_ok(index),
        ensures
            Self::written(*old(self), *final(self), index, value),
    {
        if index < 0x2000 {
            self.ram_and_rtc_enabled = value & 0x0F == 0xA;
        } else if index < 0x4000 {
            self.update_rom_bank(value);
        } else if index < 0x6000 {
            self.update_sram_bank_or_rtc_reg(value);
        } else if index < 0x8000 {
            if value == 0 {
                self.rtc_latch = false;
            } else if value == 1 {
                // Low to high transition.
                if !self.rtc_latch {
                    self.rtc.update();
                }
                self.rtc_latch = true;
            }
        } else {
            // Only allow writes if the MBC RAM has been enabled.
            if self.ram_and_rtc_enabled {
                if self.sram_bank_or_rtc_reg < 0x8 {
                    let start_addr = RAM_BANK_SIZE * self.sram_bank_or_rtc_reg as usize;
                    self.sram.set(start_addr + (index as usize - 0xA000), value);
                } else {
                    self.rtc.write(self.sram_bank_or_rtc_reg, value);
                }
            }
        }
    }
}

impl Default for Mbc3 {
    fn default() -> (r: Self)
        ensures
            r.rom@.len() == 0,
            r.sram@.len() == 0,
            r.current_rom_bank == 1,
            r.sram_bank_or_rtc_reg == 0,
            !r.ram_and_rtc_enabled,
            r.rtc_latch,
    {
        Mbc3 {
            ram_and_rtc_enabled: false,
            rom: Vec::new(),
            sram: Vec::new(),
            rtc: Rtc::default(),
            rtc_latch: true,
            current_rom_bank: 1,
            current_rom_bank_start: 0,
            sram_bank_or_rtc_reg: 0,
        }
    }
}

} // verus!
