//! Choosing the memory bank controller a cartridge uses, and mounting the
//! boot ROM over the first 256 bytes of its ROM until the boot ROM unmaps
//! itself through the BANK register.
use vstd::prelude::*;
use crate::io_regs::BANK;
use crate::interpreter::bus::{boot_rom, boot_rom_byte, BOOT_ROM_SIZE};
use crate::interpreter::mbc::mbc1::Mbc1;
use crate::interpreter::mbc::mbc2::Mbc2;
use crate::interpreter::mbc::mbc3::Mbc3;
use crate::interpreter::mbc::mbc5::Mbc5;

verus! {

pub const MBC_TYPE_ADDR: usize = 0x0147;
pub const RAM_SIZE_ADDR: usize = 0x0149;

pub enum Mbc {
    RomOnly,
    Mbc1(Mbc1),
    Mbc2(Mbc2),
    Mbc3(Mbc3),
    Mbc5(Mbc5),
}

/// Cartridge types (header byte 0x147) with a memory bank controller here:
/// 0x00..=0x03 are driven as MBC1, 0x05..=0x06 MBC2, 0x0F..=0x13 MBC3 and
/// 0x19..=0x1E MBC5.
pub open spec fn supported_mbc_type(t: u8) -> bool {
    t <= 0x03 || (0x05 <= t <= 0x06) || (0x0F <= t <= 0x13) || (0x19 <= t <= 0x1E)
}

/// A ROM image with its first 256 bytes replaced by `boot`.
pub open spec fn with_boot_rom(cart: Seq<u8>, boot: Seq<u8>) -> Seq<u8> {
    boot + cart.skip(BOOT_ROM_SIZE as int)
}

/// The boot program's bytes.
pub open spec fn boot_rom_image() -> Seq<u8> {
    Seq::new(BOOT_ROM_SIZE as nat, |i: int| boot_rom_byte(i))
}

/// The kind of bank controller a cartridge has.
#[derive(Clone, Copy, PartialEq, Eq, Structural, Debug)]
pub enum MbcKind {
    RomOnly,
    Mbc1,
    Mbc2,
    Mbc3,
    Mbc5,
}

/// The controller that cartridge type `t` (header byte 0x147) is driven as.
pub open spec fn kind_of(t: u8) -> MbcKind {
    if t <= 0x03 {
        MbcKind::Mbc1
    } else if 0x05 <= t <= 0x06 {
        MbcKind::Mbc2
    } else if 0x0F <= t <= 0x13 {
        MbcKind::Mbc3
    } else if 0x19 <= t <= 0x1E {
        MbcKind::Mbc5
    } else {
        MbcKind::RomOnly
    }
}

pub struct MbcDispatcher {
    pub rom: Vec<u8>,
    pub boot_rom_mounted: bool,
    /// The cartridge's own first 256 bytes, kept while the boot ROM covers them.
    pub under_boot_rom: Vec<u8>,
    pub mbc: Mbc,
}

/// Overwrite the first 256 bytes of `rom` with `image`.
fn overlay(rom: &mut Vec<u8>, image: &[u8])
    requires
        old(rom)@.len() >= BOOT_ROM_SIZE,
        image@.len() == BOOT_ROM_SIZE,
    ensures
        final(rom)@ == with_boot_rom(old(rom)@, image@),
{
    let mut i: usize = 0;
    while i < BOOT_ROM_SIZE
        invariant
            i <= BOOT_ROM_SIZE,
            image@.len() == BOOT_ROM_SIZE,
            old(rom)@.len() >= BOOT_ROM_SIZE,
            rom@.len() == old(rom)@.len(),
            forall|k: int| 0 <= k < i ==> rom@[k] == image@[k],
            forall|k: int| i <= k < rom@.len() ==> rom@[k] == old(rom)@[k],
        decreases BOOT_ROM_SIZE - i,
    {
        rom.set(i, image[i]);
        i += 1;
    }
    assert(rom@ =~= with_boot_rom(old(rom)@, image@));
}

/// The first 256 bytes of `rom`.
fn first_256(rom: &Vec<u8>) -> (r: Vec<u8>)
    requires
        rom@.len() >= BOOT_ROM_SIZE,
    ensures
        r@ == rom@.take(BOOT_ROM_SIZE as int),
{
    let mut out: Vec<u8> = Vec::with_capacity(BOOT_ROM_SIZE);
    let mut i: usize = 0;
    while i < BOOT_ROM_SIZE
        invariant
            i <= BOOT_ROM_SIZE,
            rom@.len() >= BOOT_ROM_SIZE,
            out@ == rom@.take(i as int),
        decreases BOOT_ROM_SIZE - i,
    {
        out.push(rom[i]);
        assert(rom@.take(i + 1) =~= rom@.take(i as int).push(rom@[i as int]));
        i += 1;
    }
    out
}

impl MbcDispatcher {
    pub open spec fn wf(self) -> bool {
        &&& self.under_boot_rom@.len() == BOOT_ROM_SIZE
        &&& match self.mbc {
            Mbc::RomOnly => true,
            Mbc::Mbc1(m) => m.wf(),
            Mbc::Mbc2(m) => m.wf() && m.rom@.len() >= BOOT_ROM_SIZE,
            Mbc::Mbc3(m) => m.wf(),
            Mbc::Mbc5(m) => m.wf(),
        }
    }

    /// Whether the boot ROM currently covers the cartridge's first 256 bytes.
    pub open spec fn mounted(self) -> bool {
        self.boot_rom_mounted
    }

    /// Whether a cartridge (and so a bank controller) is present.
    pub open spec fn has_cartridge(self) -> bool {
        !(self.mbc is RomOnly)
    }

    /// The cartridge ROM as the bank controller maps it.
    pub open spec fn cart_rom(self) -> Seq<u8> {
        match self.mbc {
            Mbc::RomOnly => Seq::empty(),
            Mbc::Mbc1(m) => m.rom@,
            Mbc::Mbc2(m) => m.rom@,
            Mbc::Mbc3(m) => m.rom@,
            Mbc::Mbc5(m) => m.rom@,
        }
    }

    /// The cartridge ROM's own first 256 bytes, kept while the boot ROM covers them.
    pub open spec fn saved_rom_start(self) -> Seq<u8> {
        self.under_boot_rom@
    }

    pub open spec fn read_ok(self, index: u16) -> bool {
        match self.mbc {
            Mbc::RomOnly => false,
            Mbc::Mbc1(m) => m.read_ok(index),
            Mbc::Mbc2(m) => m.read_ok(index),
            Mbc::Mbc3(m) => m.read_ok(index),
            Mbc::Mbc5(m) => m.read_ok(index),
        }
    }

    pub open spec fn read_spec(self, index: u16) -> u8 {
        match self.mbc {
            Mbc::RomOnly => 0,
            Mbc::Mbc1(m) => m.read_spec(index),
            Mbc::Mbc2(m) => m.read_spec(index),
            Mbc::Mbc3(m) => m.read_spec(index),
            Mbc::Mbc5(m) => m.read_spec(index),
        }
    }

    pub open spec fn write_ok(self, index: u16) -> bool {
        match self.mbc {
            Mbc::RomOnly => false,
            Mbc::Mbc1(m) => index == BANK || m.write_ok(index),
            Mbc::Mbc2(m) => index == BANK || m.write_ok(index),
            Mbc::Mbc3(m) => index == BANK || m.write_ok(index),
            Mbc::Mbc5(m) => index == BANK || m.write_ok(index),
        }
    }

    /// The kind of controller in use.
    pub open spec fn kind(self) -> MbcKind {
        match self.mbc {
            Mbc::RomOnly => MbcKind::RomOnly,
            Mbc::Mbc1(_) => MbcKind::Mbc1,
            Mbc::Mbc2(_) => MbcKind::Mbc2,
            Mbc::Mbc3(_) => MbcKind::Mbc3,
            Mbc::Mbc5(_) => MbcKind::Mbc5,
        }
    }

    /// Everything of the controller but its ROM is as in `before`: bank
    /// registers, SRAM and its enable, and the RTC.
    pub open spec fn same_controller(self, before: Self) -> bool {
        match (self.mbc, before.mbc) {
            (Mbc::RomOnly, Mbc::RomOnly) => true,
            (Mbc::Mbc1(a), Mbc::Mbc1(b)) => a.sram@ == b.sram@ && a.current_rom_bank == b.current_rom_bank
                && a.current_rom_bank_start == b.current_rom_bank_start && a.current_sram_bank
                == b.current_sram_bank && a.sram_enabled == b.sram_enabled && a.banking_mode == b.banking_mode,
            (Mbc::Mbc2(a), Mbc::Mbc2(b)) => a.sram@ == b.sram@ && a.current_rom_bank == b.current_rom_bank
                && a.current_rom_bank_start == b.current_rom_bank_start && a.sram_enabled == b.sram_enabled,
            (Mbc::Mbc3(a), Mbc::Mbc3(b)) => a.sram@ == b.sram@ && a.current_rom_bank == b.current_rom_bank
                && a.current_rom_bank_start == b.current_rom_bank_start && a.ram_and_rtc_enabled
                == b.ram_and_rtc_enabled && a.sram_bank_or_rtc_reg == b.sram_bank_or_rtc_reg
                && a.rtc_latch == b.rtc_latch && a.rtc.regs == b.rtc.regs,
            (Mbc::Mbc5(a), Mbc::Mbc5(b)) => a.sram@ == b.sram@ && a.current_rom_bank == b.current_rom_bank
                && a.current_rom_bank_start == b.current_rom_bank_start && a.ram_enabled == b.ram_enabled
                && a.current_ram_bank == b.current_ram_bank,
            _ => false,
        }
    }

    /// A cartridge's bank 0 can be read, and reads give its ROM; a write to
    /// the BANK register is always accepted.
    pub proof fn lemma_bank0_and_bank_register(self, index: u16)
        requires
            self.wf(),
            self.has_cartridge(),
            index < 0x4000,
            index < self.cart_rom().len(),
        ensures
            self.read_ok(index),
            self.read_spec(index) == self.cart_rom()[index as int],
            self.write_ok(BANK),
    {
    }

    /// Writes to the bank controller's registers (below 0x8000) are
    /// accepted for a cartridge of at least one 16 KiB bank.
    pub proof fn lemma_register_writes(self, index: u16)
        requires
            self.wf(),
            self.has_cartridge(),
            index < 0x8000,
            0x4000 <= self.cart_rom().len() <= 0xFFFF * 0x4000,
        ensures
            self.write_ok(index),
    {
    }

    pub open spec fn rom_bank(self) -> u16 {
        match self.mbc {
            Mbc::RomOnly => 0,
            Mbc::Mbc1(m) => m.current_rom_bank as u16,
            Mbc::Mbc2(m) => m.current_rom_bank as u16,
            Mbc::Mbc3(m) => m.current_rom_bank as u16,
            Mbc::Mbc5(m) => m.current_rom_bank,
        }
    }

    /// Load a cartridge: pick its bank controller from the header (byte
    /// 0x147), save its first 256 bytes, and mount the boot ROM over them.
    pub fn from_rom(rom: &[u8]) -> (r: Self)
        requires
            rom@.len() > RAM_SIZE_ADDR,
            supported_mbc_type(rom@[MBC_TYPE_ADDR as int]),
        ensures
            r.wf(),
            r.has_cartridge(),
            r.mounted(),
            r.kind() == kind_of(rom@[MBC_TYPE_ADDR as int]),
            r.cart_rom() == with_boot_rom(rom@, boot_rom_image()),
            r.saved_rom_start() == rom@.take(BOOT_ROM_SIZE as int),
            r.rom_bank() == 1,
    {
        let boot_rom = boot_rom();
        let mbc_type = rom[MBC_TYPE_ADDR];
        let mut mbc = if mbc_type <= 0x03 {
            Mbc::Mbc1(Mbc1::from_rom(rom))
        } else if mbc_type <= 0x06 {
            Mbc::Mbc2(Mbc2::from_rom(rom))
        } else if mbc_type <= 0x13 {
            Mbc::Mbc3(Mbc3::from_rom(rom))
        } else {
            Mbc::Mbc5(Mbc5::from_rom(rom))
        };

        // Back up the first 0x100 bytes and mount the boot ROM.
        let under_boot_rom: Vec<u8>;
        match mbc {
            Mbc::Mbc1(ref mut mbc1) => {
                under_boot_rom = first_256(&mbc1.rom);
                overlay(&mut mbc1.rom, &boot_rom);
            },
            Mbc::Mbc2(ref mut mbc2) => {
                under_boot_rom = first_256(&mbc2.rom);
                overlay(&mut mbc2.rom, &boot_rom);
            },
            Mbc::Mbc3(ref mut mbc3) => {
                under_boot_rom = first_256(&mbc3.rom);
                overlay(&mut mbc3.rom, &boot_rom);
            },
            Mbc::Mbc5(ref mut mbc5) => {
                under_boot_rom = first_256(&mbc5.rom);
                overlay(&mut mbc5.rom, &boot_rom);
            },
            Mbc::RomOnly => {
                under_boot_rom = Vec::new();
            },
        }

        assert(boot_rom@ =~= boot_rom_image());
        MbcDispatcher { rom: Vec::new(), boot_rom_mounted: true, under_boot_rom, mbc }
    }

    pub fn read_byte(&self, index: u16) -> (r: u8)
        requires
            self.wf(),
            self.read_ok(index),
        ensures
            r == self.read_spec(index),
    {
        match &self.mbc {
            Mbc::Mbc1(mbc1) => mbc1.read_byte(index),
            Mbc::Mbc2(mbc2) => mbc2.read_byte(index),
            Mbc::Mbc3(mbc3) => mbc3.read_byte(index),
            Mbc::Mbc5(mbc5) => mbc5.read_byte(index),
            Mbc::RomOnly => 0,
        }
    }

    /// A write to the BANK register (0xFF50) unmounts the boot ROM, restoring
    /// the cartridge's first 256 bytes; every other write goes to the bank
    /// controller.
    pub fn write_byte(&mut self, index: u16, value: u8)
        requires
            old(self).wf(),
            old(self).write_ok(index),
        ensures
            final(self).wf(),
            final(self).has_cartridge(),
            index == BANK ==> final(self).same_controller(*old(self)),
            index != BANK ==> match (old(self).mbc, final(self).mbc) {
                (Mbc::Mbc1(a), Mbc::Mbc1(b)) => Mbc1::written(a, b, index, value),
                (Mbc::Mbc2(a), Mbc::Mbc2(b)) => Mbc2::written(a, b, index, value),
                (Mbc::Mbc3(a), Mbc::Mbc3(b)) => Mbc3::written(a, b, index, value),
                (Mbc::Mbc5(a), Mbc::Mbc5(b)) => Mbc5::written(a, b, index, value),
                _ => false,
            },
            final(self).kind() == old(self).kind(),
            index == BANK ==> !final(self).mounted() && final(self).cart_rom() == with_boot_rom(
                old(self).cart_rom(),
                old(self).saved_rom_start(),
            ) && final(self).rom_bank() == old(self).rom_bank(),
            index != BANK ==> final(self).mounted() == old(self).mounted()
                && final(self).cart_rom() == old(self).cart_rom(),
            final(self).saved_rom_start() == old(self).saved_rom_start(),
    {
        if index == BANK {
            match self.mbc {
                Mbc::Mbc1(ref mut mbc1) => overlay(&mut mbc1.rom, &self.under_boot_rom),
                Mbc::Mbc2(ref mut mbc2) => overlay(&mut mbc2.rom, &self.under_boot_rom),
                Mbc::Mbc3(ref mut mbc3) => overlay(&mut mbc3.rom, &self.under_boot_rom),
                Mbc::Mbc5(ref mut mbc5) => overlay(&mut mbc5.rom, &self.under_boot_rom),
                Mbc::RomOnly => {},
            }
            self.boot_rom_mounted = false;
            return;
        }
        match self.mbc {
            Mbc::Mbc1(ref mut mbc1) => mbc1.write_byte(index, value),
            Mbc::Mbc2(ref mut mbc2) => mbc2.write_byte(index, value),
            Mbc::Mbc3(ref mut mbc3) => mbc3.write_byte(index, value),
            Mbc::Mbc5(ref mut mbc5) => mbc5.write_byte(index, value),
            Mbc::RomOnly => {},
        }
    }

    pub fn current_rom_bank(&self) -> (r: u16)
        requires
            self.has_cartridge(),
        ensures
            r == self.rom_bank(),
    {
        match &self.mbc {
            Mbc::Mbc1(mbc1) => mbc1.current_rom_bank as u16,
            Mbc::Mbc2(mbc2) => mbc2.current_rom_bank as u16,
            Mbc::Mbc3(mbc3) => mbc3.current_rom_bank as u16,
            Mbc::Mbc5(mbc5) => mbc5.current_rom_bank,
            Mbc::RomOnly => 0,
        }
    }
}

impl Default for MbcDispatcher {
    fn default() -> (r: Self)
        ensures
            r.wf(),
            !r.has_cartridge(),
            r.mounted(),
            r.saved_rom_start() == Seq::new(BOOT_ROM_SIZE as nat, |i: int| 0u8),
    {
        let under_boot_rom: Vec<u8> = vec![0; BOOT_ROM_SIZE];
        assert(under_boot_rom@ =~= Seq::new(BOOT_ROM_SIZE as nat, |i: int| 0u8));
        MbcDispatcher { rom: Vec::new(), boot_rom_mounted: true, under_boot_rom, mbc: Mbc::RomOnly }
    }
}

/// Mounting a boot ROM over a cartridge and unmounting it again gives back the
/// cartridge's ROM.
pub proof fn lemma_unmount_restores_rom(rom: Seq<u8>, boot: Seq<u8>)
    requires
        rom.len() >= BOOT_ROM_SIZE,
        boot.len() == BOOT_ROM_SIZE,
    ensures
        with_boot_rom(with_boot_rom(rom, boot), rom.take(BOOT_ROM_SIZE as int)) == rom,
{
    assert(with_boot_rom(with_boot_rom(rom, boot), rom.take(BOOT_ROM_SIZE as int)) =~= rom);
}

} // verus!
