//! The CPU's view of the address space: 64 KiB of memory and the T-cycle
//! clock that every memory access and internal cycle advances.
use vstd::prelude::*;
use crate::hw_constants::{post_boot_hwio, PostBoot, MEM_MAP_SIZE};
use crate::io_regs::BANK;

verus! {

/// Size of the boot ROM, which covers 0x0000..0x0100 until it unmaps itself.
pub const BOOT_ROM_SIZE: usize = 0x100;

/// The boot program run at power-on: it sets up the stack pointer and the
/// registers as the console hands them to a cartridge, then writes the BANK
/// register, which unmaps it, and the cartridge runs from 0x0100.
pub open spec fn boot_rom_byte(i: int) -> u8 {
    if i == 0x00 { 0x31u8 }  // LD SP, 0xFFFE
    else if i == 0x01 { 0xFEu8 }
    else if i == 0x02 { 0xFFu8 }
    else if i == 0x03 { 0x01u8 }  // LD BC, 0x01B0
    else if i == 0x04 { 0xB0u8 }
    else if i == 0x05 { 0x01u8 }
    else if i == 0x06 { 0xC5u8 }  // PUSH BC
    else if i == 0x07 { 0xF1u8 }  // POP AF
    else if i == 0x08 { 0x01u8 }  // LD BC, 0x0013
    else if i == 0x09 { 0x13u8 }
    else if i == 0x0A { 0x00u8 }
    else if i == 0x0B { 0x11u8 }  // LD DE, 0x00D8
    else if i == 0x0C { 0xD8u8 }
    else if i == 0x0D { 0x00u8 }
    else if i == 0x0E { 0x21u8 }  // LD HL, 0x014D
    else if i == 0x0F { 0x4Du8 }
    else if i == 0x10 { 0x01u8 }
    else if i == 0x11 { 0xC3u8 }  // JP 0x00FE
    else if i == 0x12 { 0xFEu8 }
    else if i == 0x13 { 0x00u8 }
    else if i == 0xFE { 0xE0u8 }  // LDH (0x50), A: unmap the boot ROM
    else if i == 0xFF { 0x50u8 }
    else { 0u8 }
}

/// The boot program's 256 bytes.
pub fn boot_rom() -> (r: Vec<u8>)
    ensures
        r@.len() == BOOT_ROM_SIZE,
        forall|i: int| 0 <= i < BOOT_ROM_SIZE ==> r@[i] == boot_rom_byte(i),
{
    let mut r: Vec<u8> = vec![0; BOOT_ROM_SIZE];
    r.set(0x00, 0x31);
    r.set(0x01, 0xFE);
    r.set(0x02, 0xFF);
    r.set(0x03, 0x01);
    r.set(0x04, 0xB0);
    r.set(0x05, 0x01);
    r.set(0x06, 0xC5);
    r.set(0x07, 0xF1);
    r.set(0x08, 0x01);
    r.set(0x09, 0x13);
    r.set(0x0B, 0x11);
    r.set(0x0C, 0xD8);
    r.set(0x0E, 0x21);
    r.set(0x0F, 0x4D);
    r.set(0x10, 0x01);
    r.set(0x11, 0xC3);
    r.set(0x12, 0xFE);
    r.set(0xFE, 0xE0);
    r.set(0xFF, 0x50);
    r
}

/// Memory once the boot ROM is unmapped: the cartridge's own first 256
/// bytes, kept in `under`, are back in place.
pub closed spec fn unmapped(mem: Seq<u8>, under: Seq<u8>) -> Seq<u8> {
    Seq::new(mem.len(), |i: int| if i < BOOT_ROM_SIZE { under[i] } else { mem[i] })
}

/// Unmapping the boot ROM puts `under` at 0x0000..0x0100 and keeps the rest.
pub proof fn lemma_unmapped(mem: Seq<u8>, under: Seq<u8>)
    ensures
        unmapped(mem, under).len() == mem.len(),
        forall|i: int|
            0 <= i < mem.len() ==> #[trigger] unmapped(mem, under)[i] == if i < BOOT_ROM_SIZE {
                under[i]
            } else {
                mem[i]
            },
{
}

pub struct AddressBus {
    pub buffer: Vec<u8>,
    /// T-cycles since power-on.
    pub clock: u64,
    /// The clock value at which the next interrupt is due; a halted CPU
    /// sleeps until then.
    pub next_interrupt: u64,
    /// Whether the boot ROM covers 0x0000..0x0100.
    pub boot_rom_mounted: bool,
    /// What lies under the boot ROM while it is mounted.
    pub under_boot_rom: Vec<u8>,
}

impl AddressBus {
    pub open spec fn wf(&self) -> bool {
        &&& self.buffer@.len() == MEM_MAP_SIZE
        &&& self.under_boot_rom@.len() == BOOT_ROM_SIZE
    }

    pub fn read_byte(&self, addr: u16) -> (r: u8)
        requires
            self.wf(),
        ensures
            r == self.buffer@[addr as int],
    {
        self.buffer[addr as usize]
    }

    /// Store a byte. Writing the BANK register while the boot ROM is mounted
    /// unmaps it first.
    pub fn write_byte(&mut self, addr: u16, value: u8)
        requires
            old(self).wf(),
        ensures
            final(self).wf(),
            final(self).buffer@ == (if addr == BANK && old(self).boot_rom_mounted {
                unmapped(old(self).buffer@, old(self).under_boot_rom@)
            } else {
                old(self).buffer@
            }).update(addr as int, value),
            final(self).boot_rom_mounted == (old(self).boot_rom_mounted && addr != BANK),
            final(self).under_boot_rom@ == old(self).under_boot_rom@,
            final(self).clock == old(self).clock,
            final(self).next_interrupt == old(self).next_interrupt,
    {
        if addr == BANK && self.boot_rom_mounted {
            let mut i: usize = 0;
            while i < BOOT_ROM_SIZE
                invariant
                    i <= BOOT_ROM_SIZE,
                    self.wf(),
                    self.under_boot_rom@ == old(self).under_boot_rom@,
                    self.clock == old(self).clock,
                    self.next_interrupt == old(self).next_interrupt,
                    self.boot_rom_mounted == old(self).boot_rom_mounted,
                    forall|k: int|
                        0 <= k < MEM_MAP_SIZE ==> #[trigger] self.buffer@[k] == if k < i {
                            old(self).under_boot_rom@[k]
                        } else {
                            old(self).buffer@[k]
                        },
                decreases BOOT_ROM_SIZE - i,
            {
                let b = self.under_boot_rom[i];
                self.buffer.set(i, b);
                i += 1;
            }
            self.boot_rom_mounted = false;
            assert(self.buffer@ =~= unmapped(old(self).buffer@, old(self).under_boot_rom@));
        }
        self.buffer.set(addr as usize, value);
    }

    /// Advance by `m_cycles` M-cycles of 4 T-cycles each.
    pub fn increment_timers(&mut self, m_cycles: u16)
        requires
            old(self).clock + 4 * m_cycles <= u64::MAX,
        ensures
            final(self).clock == old(self).clock + 4 * m_cycles,
            final(self).buffer@ == old(self).buffer@,
            final(self).next_interrupt == old(self).next_interrupt,
            final(self).boot_rom_mounted == old(self).boot_rom_mounted,
            final(self).under_boot_rom@ == old(self).under_boot_rom@,
    {
        self.clock = self.clock + 4 * (m_cycles as u64);
    }

    /// Advance by half an M-cycle.
    pub fn half_increment_timers(&mut self)
        requires
            old(self).clock + 2 <= u64::MAX,
        ensures
            final(self).clock == old(self).clock + 2,
            final(self).buffer@ == old(self).buffer@,
            final(self).next_interrupt == old(self).next_interrupt,
            final(self).boot_rom_mounted == old(self).boot_rom_mounted,
            final(self).under_boot_rom@ == old(self).under_boot_rom@,
    {
        self.clock = self.clock + 2;
    }

    /// Map a cartridge ROM: its first 32 KiB (banks 0 and 1) go to
    /// 0x0000..0x8000, where the first 256 bytes go under the boot ROM
    /// while it is mounted.
    pub fn load_rom(&mut self, rom: &[u8])
        requires
            old(self).wf(),
        ensures
            final(self).wf(),
            forall|i: int|
                0 <= i < MEM_MAP_SIZE ==> #[trigger] final(self).buffer@[i] == if i < 0x8000 && i
                    < rom@.len() && !(old(self).boot_rom_mounted && i < BOOT_ROM_SIZE) {
                    rom@[i]
                } else {
                    old(self).buffer@[i]
                },
            forall|i: int|
                0 <= i < BOOT_ROM_SIZE ==> #[trigger] final(self).under_boot_rom@[i] == if old(
                    self,
                ).boot_rom_mounted && i < rom@.len() {
                    rom@[i]
                } else {
                    old(self).under_boot_rom@[i]
                },
            final(self).boot_rom_mounted == old(self).boot_rom_mounted,
            final(self).clock == old(self).clock,
            final(self).next_interrupt == old(self).next_interrupt,
    {
        let n: usize = if rom.len() < 0x8000 { rom.len() } else { 0x8000 };
        let mut i: usize = 0;
        while i < n
            invariant
                n <= rom@.len(),
                n <= 0x8000,
                i <= n,
                self.buffer@.len() == MEM_MAP_SIZE,
                self.under_boot_rom@.len() == BOOT_ROM_SIZE,
                self.clock == old(self).clock,
                self.next_interrupt == old(self).next_interrupt,
                self.boot_rom_mounted == old(self).boot_rom_mounted,
                forall|k: int|
                    0 <= k < MEM_MAP_SIZE ==> #[trigger] self.buffer@[k] == if k < i && !(
                    self.boot_rom_mounted && k < BOOT_ROM_SIZE) {
                        rom@[k]
                    } else {
                        old(self).buffer@[k]
                    },
                forall|k: int|
                    0 <= k < BOOT_ROM_SIZE ==> #[trigger] self.under_boot_rom@[k] == if self.boot_rom_mounted
                        && k < i {
                        rom@[k]
                    } else {
                        old(self).under_boot_rom@[k]
                    },
            decreases n - i,
        {
            if self.boot_rom_mounted && i < BOOT_ROM_SIZE {
                self.under_boot_rom.set(i, rom[i]);
            } else {
                self.buffer.set(i, rom[i]);
            }
            i += 1;
        }
    }
}

impl Default for AddressBus {
    /// Power-on: memory is clear but for the boot ROM, mounted over
    /// 0x0000..0x0100.
    fn default() -> (r: Self)
        ensures
            r.wf(),
            forall|i: int|
                0 <= i < MEM_MAP_SIZE ==> r.buffer@[i] == if i < BOOT_ROM_SIZE {
                    boot_rom_byte(i)
                } else {
                    0
                },
            r.boot_rom_mounted,
            forall|i: int| 0 <= i < BOOT_ROM_SIZE ==> r.under_boot_rom@[i] == 0,
            r.clock == 0,
            r.next_interrupt == 0,
    {
        let image = boot_rom();
        let mut buffer: Vec<u8> = vec![0; MEM_MAP_SIZE];
        let mut i: usize = 0;
        while i < BOOT_ROM_SIZE
            invariant
                i <= BOOT_ROM_SIZE,
                image@.len() == BOOT_ROM_SIZE,
                forall|k: int| 0 <= k < BOOT_ROM_SIZE ==> image@[k] == boot_rom_byte(k),
                buffer@.len() == MEM_MAP_SIZE,
                forall|k: int|
                    0 <= k < MEM_MAP_SIZE ==> buffer@[k] == if k < i {
                        boot_rom_byte(k)
                    } else {
                        0
                    },
            decreases BOOT_ROM_SIZE - i,
        {
            buffer.set(i, image[i]);
            i += 1;
        }
        AddressBus {
            buffer,
            clock: 0,
            next_interrupt: 0,
            boot_rom_mounted: true,
            under_boot_rom: vec![0; BOOT_ROM_SIZE],
        }
    }
}

impl PostBoot for AddressBus {
    /// Memory holds the hardware registers' values after the boot ROM, which
    /// is unmapped.
    fn post_boot_dmg() -> (r: Self)
        ensures
            r.wf(),
            forall|i: int|
                0 <= i < MEM_MAP_SIZE ==> r.buffer@[i] == crate::hw_constants::post_boot_byte(i),
            !r.boot_rom_mounted,
            r.clock == 0,
            r.next_interrupt == 0,
    {
        AddressBus {
            buffer: post_boot_hwio(),
            clock: 0,
            next_interrupt: 0,
            boot_rom_mounted: false,
            under_boot_rom: vec![0; BOOT_ROM_SIZE],
        }
    }
}

/// T-cycles from `current_clock` until an interrupt scheduled for
/// `next_interrupt` is due (0 once it is), or `None` for an interrupt that
/// will never come, which is scheduled at `u64::MAX`.
pub fn cycles_until_interrupt(next_interrupt: u64, current_clock: u64) -> (r: Option<u64>)
    ensures
        next_interrupt == u64::MAX ==> r is None,
        next_interrupt != u64::MAX ==> r == Some(
            if next_interrupt > current_clock {
                (next_interrupt - current_clock) as u64
            } else {
                0u64
            },
        ),
{
    if next_interrupt == u64::MAX {
        None
    } else {
        Some(next_interrupt.saturating_sub(current_clock))
    }
}

} // verus!
