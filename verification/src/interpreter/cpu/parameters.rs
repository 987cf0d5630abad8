//! Operand fields of SM83 opcodes: 8-bit registers, register pairs and
//! branch conditions, each held in two or three bits of an opcode.
use vstd::prelude::*;

verus! {

/// An 8-bit operand; `IndirectHL` is the byte that HL points at.
#[derive(Clone, Copy, PartialEq, Eq, Structural, Debug)]
pub enum R8 {
    B,
    C,
    D,
    E,
    H,
    L,
    IndirectHL,
    A,
}

/// A 16-bit register pair for loads and 16-bit arithmetic.
#[derive(Clone, Copy, PartialEq, Eq, Structural, Debug)]
pub enum R16 {
    Bc,
    De,
    Hl,
    Sp,
}

/// A 16-bit register pair for PUSH and POP.
#[derive(Clone, Copy, PartialEq, Eq, Structural, Debug)]
pub enum R16Stack {
    Bc,
    De,
    Hl,
    Af,
}

/// An address register for `LD (rr), A` and `LD A, (rr)`; the HL forms
/// step HL after the access.
#[derive(Clone, Copy, PartialEq, Eq, Structural, Debug)]
pub enum R16Mem {
    Bc,
    De,
    HlInc,
    HlDec,
}

/// A branch condition on the Z or C flag.
#[derive(Clone, Copy, PartialEq, Eq, Structural, Debug)]
pub enum Condition {
    Nz,
    Z,
    Nc,
    C,
}

impl R8 {
    /// The operand that a field value names (fields are masked to their width).
    pub open spec fn of_bits(v: u8) -> Self {
        if v == 0 {
            R8::B
        } else if v == 1 {
            R8::C
        } else if v == 2 {
            R8::D
        } else if v == 3 {
            R8::E
        } else if v == 4 {
            R8::H
        } else if v == 5 {
            R8::L
        } else if v == 6 {
            R8::IndirectHL
        } else {
            R8::A
        }
    }

    /// The three-bit field that names this operand.
    pub open spec fn bits(self) -> u8 {
        match self {
            R8::B => 0,
            R8::C => 1,
            R8::D => 2,
            R8::E => 3,
            R8::H => 4,
            R8::L => 5,
            R8::IndirectHL => 6,
            R8::A => 7,
        }
    }

    pub fn from_bits(v: u8) -> (r: Self)
        requires
            v < 8,
        ensures
            r.bits() == v,
            r == Self::of_bits(v),
    {
        if v == 0 {
            R8::B
        } else if v == 1 {
            R8::C
        } else if v == 2 {
            R8::D
        } else if v == 3 {
            R8::E
        } else if v == 4 {
            R8::H
        } else if v == 5 {
            R8::L
        } else if v == 6 {
            R8::IndirectHL
        } else {
            R8::A
        }
    }
}

impl R16 {
    /// The operand that a field value names (fields are masked to their width).
    pub open spec fn of_bits(v: u8) -> Self {
        if v == 0 {
            R16::Bc
        } else if v == 1 {
            R16::De
        } else if v == 2 {
            R16::Hl
        } else {
            R16::Sp
        }
    }

    pub open spec fn bits(self) -> u8 {
        match self {
            R16::Bc => 0,
            R16::De => 1,
            R16::Hl => 2,
            R16::Sp => 3,
        }
    }

    pub fn from_bits(v: u8) -> (r: Self)
        requires
            v < 4,
        ensures
            r.bits() == v,
            r == Self::of_bits(v),
    {
        if v == 0 {
            R16::Bc
        } else if v == 1 {
            R16::De
        } else if v == 2 {
            R16::Hl
        } else {
            R16::Sp
        }
    }
}

impl R16Stack {
    /// The operand that a field value names (fields are masked to their width).
    pub open spec fn of_bits(v: u8) -> Self {
        if v == 0 {
            R16Stack::Bc
        } else if v == 1 {
            R16Stack::De
        } else if v == 2 {
            R16Stack::Hl
        } else {
            R16Stack::Af
        }
    }

    pub open spec fn bits(self) -> u8 {
        match self {
            R16Stack::Bc => 0,
            R16Stack::De => 1,
            R16Stack::Hl => 2,
            R16Stack::Af => 3,
        }
    }

    pub fn from_bits(v: u8) -> (r: Self)
        requires
            v < 4,
        ensures
            r.bits() == v,
            r == Self::of_bits(v),
    {
        if v == 0 {
            R16Stack::Bc
        } else if v == 1 {
            R16Stack::De
        } else if v == 2 {
            R16Stack::Hl
        } else {
            R16Stack::Af
        }
    }
}

impl R16Mem {
    /// The operand that a field value names (fields are masked to their width).
    pub open spec fn of_bits(v: u8) -> Self {
        if v == 0 {
            R16Mem::Bc
        } else if v == 1 {
            R16Mem::De
        } else if v == 2 {
            R16Mem::HlInc
        } else {
            R16Mem::HlDec
        }
    }

    pub open spec fn bits(self) -> u8 {
        match self {
            R16Mem::Bc => 0,
            R16Mem::De => 1,
            R16Mem::HlInc => 2,
            R16Mem::HlDec => 3,
        }
    }

    pub fn from_bits(v: u8) -> (r: Self)
        requires
            v < 4,
        ensures
            r.bits() == v,
            r == Self::of_bits(v),
    {
        if v == 0 {
            R16Mem::Bc
        } else if v == 1 {
            R16Mem::De
        } else if v == 2 {
            R16Mem::HlInc
        } else {
            R16Mem::HlDec
        }
    }
}

impl Condition {
    /// The operand that a field value names (fields are masked to their width).
    pub open spec fn of_bits(v: u8) -> Self {
        if v == 0 {
            Condition::Nz
        } else if v == 1 {
            Condition::Z
        } else if v == 2 {
            Condition::Nc
        } else {
            Condition::C
        }
    }

    pub open spec fn bits(self) -> u8 {
        match self {
            Condition::Nz => 0,
            Condition::Z => 1,
            Condition::Nc => 2,
            Condition::C => 3,
        }
    }

    pub fn from_bits(v: u8) -> (r: Self)
        requires
            v < 4,
        ensures
            r.bits() == v,
            r == Self::of_bits(v),
    {
        if v == 0 {
            Condition::Nz
        } else if v == 1 {
            Condition::Z
        } else if v == 2 {
            Condition::Nc
        } else {
            Condition::C
        }
    }
}

} // verus!
