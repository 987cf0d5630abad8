//! The SM83 register file: A and the flags, the pairs BC, DE and HL, the
//! stack pointer and the program counter.
use vstd::prelude::*;
use crate::hw_constants::PostBoot;
use crate::interpreter::cpu::parameters::{R16, R16Stack, R8};

verus! {

/// The 16-bit value with low byte `lo` and high byte `hi`.
pub open spec fn word(lo: u8, hi: u8) -> u16 {
    (hi * 256 + lo) as u16
}

pub open spec fn lo_byte(v: u16) -> u8 {
    (v % 256) as u8
}

pub open spec fn hi_byte(v: u16) -> u8 {
    (v / 256) as u8
}

pub fn to_word(lo: u8, hi: u8) -> (r: u16)
    ensures
        r == word(lo, hi),
{
    (hi as u16) * 256 + (lo as u16)
}

pub fn low_byte(v: u16) -> (r: u8)
    ensures
        r == lo_byte(v),
{
    (v % 256) as u8
}

pub fn high_byte(v: u16) -> (r: u8)
    ensures
        r == hi_byte(v),
{
    (v / 256) as u8
}

/// Splitting a word into bytes and joining them gives the word back.
pub proof fn lemma_word_bytes(v: u16, lo: u8, hi: u8)
    ensures
        word(lo_byte(v), hi_byte(v)) == v,
        lo_byte(word(lo, hi)) == lo,
        hi_byte(word(lo, hi)) == hi,
{
}

/// The F register: zero, subtract, half-carry and carry in bits 7..=4; its
/// low four bits always read as 0.
#[derive(Clone, Copy, PartialEq, Eq, Structural, Debug)]
pub struct Flags {
    pub z: bool,
    pub n: bool,
    pub h: bool,
    pub c: bool,
}

impl Flags {
    pub open spec fn byte(self) -> u8 {
        ((if self.z { 128int } else { 0 }) + (if self.n { 64int } else { 0 }) + (if self.h {
            32int
        } else {
            0
        }) + (if self.c { 16int } else { 0 })) as u8
    }

    pub open spec fn of_byte(v: u8) -> Flags {
        Flags {
            z: (v / 128) % 2 == 1,
            n: (v / 64) % 2 == 1,
            h: (v / 32) % 2 == 1,
            c: (v / 16) % 2 == 1,
        }
    }

    pub fn into_bits(self) -> (r: u8)
        ensures
            r == self.byte(),
    {
        let mut r: u8 = 0;
        if self.z {
            r = r + 128;
        }
        if self.n {
            r = r + 64;
        }
        if self.h {
            r = r + 32;
        }
        if self.c {
            r = r + 16;
        }
        r
    }

    pub fn from_bits(v: u8) -> (r: Flags)
        ensures
            r == Flags::of_byte(v),
    {
        Flags { z: (v / 128) % 2 == 1, n: (v / 64) % 2 == 1, h: (v / 32) % 2 == 1, c: (v / 16) % 2 == 1 }
    }
}

/// Writing flags to F and reading them back gives the same flags; reading F
/// keeps the upper four bits of what was written and clears the rest.
pub proof fn lemma_flags_byte(f: Flags, v: u8)
    ensures
        Flags::of_byte(f.byte()) == f,
        Flags::of_byte(v).byte() == v - v % 16,
{
}

#[derive(Clone, Copy, PartialEq, Eq, Structural, Debug)]
pub struct Registers {
    pub a: u8,
    pub f: Flags,
    pub b: u8,
    pub c: u8,
    pub d: u8,
    pub e: u8,
    pub h: u8,
    pub l: u8,
    pub sp: u16,
    pub pc: u16,
}

impl Registers {
    pub open spec fn bc_spec(self) -> u16 {
        word(self.c, self.b)
    }

    pub open spec fn de_spec(self) -> u16 {
        word(self.e, self.d)
    }

    pub open spec fn hl_spec(self) -> u16 {
        word(self.l, self.h)
    }

    pub open spec fn af_spec(self) -> u16 {
        word(self.f.byte(), self.a)
    }

    pub open spec fn get_r16(self, r: R16) -> u16 {
        match r {
            R16::Bc => self.bc_spec(),
            R16::De => self.de_spec(),
            R16::Hl => self.hl_spec(),
            R16::Sp => self.sp,
        }
    }

    pub open spec fn with_r16(self, r: R16, v: u16) -> Registers {
        match r {
            R16::Bc => Registers { b: hi_byte(v), c: lo_byte(v), ..self },
            R16::De => Registers { d: hi_byte(v), e: lo_byte(v), ..self },
            R16::Hl => Registers { h: hi_byte(v), l: lo_byte(v), ..self },
            R16::Sp => Registers { sp: v, ..self },
        }
    }

    pub open spec fn get_r16_stack(self, r: R16Stack) -> u16 {
        match r {
            R16Stack::Bc => self.bc_spec(),
            R16Stack::De => self.de_spec(),
            R16Stack::Hl => self.hl_spec(),
            R16Stack::Af => self.af_spec(),
        }
    }

    pub open spec fn with_r16_stack(self, r: R16Stack, v: u16) -> Registers {
        match r {
            R16Stack::Bc => self.with_r16(R16::Bc, v),
            R16Stack::De => self.with_r16(R16::De, v),
            R16Stack::Hl => self.with_r16(R16::Hl, v),
            R16Stack::Af => Registers { a: hi_byte(v), f: Flags::of_byte(lo_byte(v)), ..self },
        }
    }

    /// The register an 8-bit operand names; (HL) is memory, not a register.
    pub open spec fn get_r8(self, r: R8) -> u8 {
        match r {
            R8::B => self.b,
            R8::C => self.c,
            R8::D => self.d,
            R8::E => self.e,
            R8::H => self.h,
            R8::L => self.l,
            R8::A => self.a,
            R8::IndirectHL => 0,
        }
    }

    pub open spec fn with_r8(self, r: R8, v: u8) -> Registers {
        match r {
            R8::B => Registers { b: v, ..self },
            R8::C => Registers { c: v, ..self },
            R8::D => Registers { d: v, ..self },
            R8::E => Registers { e: v, ..self },
            R8::H => Registers { h: v, ..self },
            R8::L => Registers { l: v, ..self },
            R8::A => Registers { a: v, ..self },
            R8::IndirectHL => self,
        }
    }

    pub fn hl(&self) -> (r: u16)
        ensures
            r == self.hl_spec(),
    {
        to_word(self.l, self.h)
    }

    pub fn r16(&self, r: R16) -> (v: u16)
        ensures
            v == self.get_r16(r),
    {
        match r {
            R16::Bc => to_word(self.c, self.b),
            R16::De => to_word(self.e, self.d),
            R16::Hl => to_word(self.l, self.h),
            R16::Sp => self.sp,
        }
    }

    pub fn set_r16(&mut self, r: R16, v: u16)
        ensures
            *final(self) == old(self).with_r16(r, v),
    {
        match r {
            R16::Bc => {
                self.b = high_byte(v);
                self.c = low_byte(v);
            },
            R16::De => {
                self.d = high_byte(v);
                self.e = low_byte(v);
            },
            R16::Hl => {
                self.h = high_byte(v);
                self.l = low_byte(v);
            },
            R16::Sp => {
                self.sp = v;
            },
        }
    }

    pub fn r16_stack(&self, r: R16Stack) -> (v: u16)
        ensures
            v == self.get_r16_stack(r),
    {
        match r {
            R16Stack::Bc => to_word(self.c, self.b),
            R16Stack::De => to_word(self.e, self.d),
            R16Stack::Hl => to_word(self.l, self.h),
            R16Stack::Af => to_word(self.f.into_bits(), self.a),
        }
    }

    pub fn set_r16_stack(&mut self, r: R16Stack, v: u16)
        ensures
            *final(self) == old(self).with_r16_stack(r, v),
    {
        match r {
            R16Stack::Bc => self.set_r16(R16::Bc, v),
            R16Stack::De => self.set_r16(R16::De, v),
            R16Stack::Hl => self.set_r16(R16::Hl, v),
            R16Stack::Af => {
                self.a = high_byte(v);
                self.f = Flags::from_bits(low_byte(v));
            },
        }
    }
}

/// The registers as the DMG boot ROM leaves them for a cartridge whose
/// header checksum is not zero: AF=0x01B0, BC=0x0013, DE=0x00D8,
/// HL=0x014D, SP=0xFFFE, PC=0x0100.
pub open spec fn post_boot_registers() -> Registers {
    Registers {
        a: 0x01,
        f: Flags { z: true, n: false, h: true, c: true },
        b: 0x00,
        c: 0x13,
        d: 0x00,
        e: 0xD8,
        h: 0x01,
        l: 0x4D,
        sp: 0xFFFE,
        pc: 0x0100,
    }
}

impl PostBoot for Registers {
    fn post_boot_dmg() -> (r: Self)
        ensures
            r == post_boot_registers(),
    {
        Registers {
            a: 0x01,
            f: Flags { z: true, n: false, h: true, c: true },
            b: 0x00,
            c: 0x13,
            d: 0x00,
            e: 0xD8,
            h: 0x01,
            l: 0x4D,
            sp: 0xFFFE,
            pc: 0x0100,
        }
    }
}

impl Registers {
    /// Every register zero.
    pub open spec fn default_spec() -> Registers {
        Registers {
            a: 0,
            f: Flags { z: false, n: false, h: false, c: false },
            b: 0,
            c: 0,
            d: 0,
            e: 0,
            h: 0,
            l: 0,
            sp: 0,
            pc: 0,
        }
    }
}

impl Default for Registers {
    fn default() -> (r: Self)
        ensures
            r == Registers::default_spec(),
    {
        Registers {
            a: 0,
            f: Flags { z: false, n: false, h: false, c: false },
            b: 0,
            c: 0,
            d: 0,
            e: 0,
            h: 0,
            l: 0,
            sp: 0,
            pc: 0,
        }
    }
}

} // verus!
