//! The SM83 instruction set: every one-byte opcode, the opcodes behind the
//! 0xCB prefix, how they are encoded, and their base length in M-cycles.
use vstd::prelude::*;
use crate::interpreter::cpu::parameters::{Condition, R16, R16Mem, R16Stack, R8};

verus! {

#[derive(Clone, Copy, PartialEq, Eq, Structural, Debug)]
pub enum Opcode {
    // Block 0
    Nop,
    LdRrNn { x: R16 },
    LdMemA { x: R16Mem },
    LdAMem { x: R16Mem },
    LdNnSp,
    IncRr { x: R16 },
    DecRr { x: R16 },
    AddHlRr { x: R16 },
    IncR { x: R8 },
    DecR { x: R8 },
    LdRN { x: R8 },
    Rlca,
    Rrca,
    Rla,
    Rra,
    Daa,
    Cpl,
    Scf,
    Ccf,
    JrE,
    JrCcE { c: Condition },
    Stop,
    // Block 1
    LdRR { x: R8, y: R8 },
    Halt,
    // Block 2
    AddR { x: R8 },
    AdcR { x: R8 },
    SubR { x: R8 },
    SbcR { x: R8 },
    AndR { x: R8 },
    XorR { x: R8 },
    OrR { x: R8 },
    CpR { x: R8 },
    // Block 3
    AddN,
    AdcN,
    SubN,
    SbcN,
    AndN,
    XorN,
    OrN,
    CpN,
    RetCc { c: Condition },
    Ret,
    Reti,
    JpCcNn { c: Condition },
    JpNn,
    JpHl,
    CallCcNn { c: Condition },
    CallNn,
    /// Restart at address `x * 8`.
    RstN { x: u8 },
    PopRr { x: R16Stack },
    PushRr { x: R16Stack },
    Prefix,
    LdhCA,
    LdhNA,
    LdNnA,
    LdhAC,
    LdhAN,
    LdANn,
    AddSpE,
    LdHlSpPlusE,
    LdSpHl,
    Di,
    Ei,
}

#[derive(Clone, Copy, PartialEq, Eq, Structural, Debug)]
pub enum PrefixOpcode {
    RlcR { x: R8 },
    RrcR { x: R8 },
    RlR { x: R8 },
    RrR { x: R8 },
    SlaR { x: R8 },
    SraR { x: R8 },
    SwapR { x: R8 },
    SrlR { x: R8 },
    BitBR { b: u8, x: R8 },
    ResBR { b: u8, x: R8 },
    SetBR { b: u8, x: R8 },
}

/// Why the CPU stopped: a byte that is no SM83 opcode, or STOP, which this
/// emulator does not implement.
#[derive(Clone, Copy, PartialEq, Eq, Structural, Debug)]
pub enum CpuError {
    IllegalOpcode(u8),
    Stop,
}

/// The eleven bytes that are no SM83 opcode.
pub open spec fn is_illegal(b: u8) -> bool {
    b == 0xD3 || b == 0xDB || b == 0xDD || b == 0xE3 || b == 0xE4 || b == 0xEB || b == 0xEC
        || b == 0xED || b == 0xF4 || b == 0xFC || b == 0xFD
}

impl Opcode {
    /// Operand fields in range; `LD (HL), (HL)` does not exist (its byte is HALT).
    pub open spec fn wf(self) -> bool {
        match self {
            Opcode::RstN { x } => x < 8,
            Opcode::LdRR { x, y } => !(x == R8::IndirectHL && y == R8::IndirectHL),
            _ => true,
        }
    }

    /// The byte that encodes this opcode.
    pub open spec fn encode(self) -> u8 {
        match self {
            Opcode::Nop => 0x00,
            Opcode::LdRrNn { x } => (0x01 + 16 * x.bits()) as u8,
            Opcode::LdMemA { x } => (0x02 + 16 * x.bits()) as u8,
            Opcode::LdAMem { x } => (0x0A + 16 * x.bits()) as u8,
            Opcode::LdNnSp => 0x08,
            Opcode::IncRr { x } => (0x03 + 16 * x.bits()) as u8,
            Opcode::DecRr { x } => (0x0B + 16 * x.bits()) as u8,
            Opcode::AddHlRr { x } => (0x09 + 16 * x.bits()) as u8,
            Opcode::IncR { x } => (0x04 + 8 * x.bits()) as u8,
            Opcode::DecR { x } => (0x05 + 8 * x.bits()) as u8,
            Opcode::LdRN { x } => (0x06 + 8 * x.bits()) as u8,
            Opcode::Rlca => 0x07,
            Opcode::Rrca => 0x0F,
            Opcode::Rla => 0x17,
            Opcode::Rra => 0x1F,
            Opcode::Daa => 0x27,
            Opcode::Cpl => 0x2F,
            Opcode::Scf => 0x37,
            Opcode::Ccf => 0x3F,
            Opcode::JrE => 0x18,
            Opcode::JrCcE { c } => (0x20 + 8 * c.bits()) as u8,
            Opcode::Stop => 0x10,
            Opcode::LdRR { x, y } => (0x40 + 8 * x.bits() + y.bits()) as u8,
            Opcode::Halt => 0x76,
            Opcode::AddR { x } => (0x80 + x.bits()) as u8,
            Opcode::AdcR { x } => (0x88 + x.bits()) as u8,
            Opcode::SubR { x } => (0x90 + x.bits()) as u8,
            Opcode::SbcR { x } => (0x98 + x.bits()) as u8,
            Opcode::AndR { x } => (0xA0 + x.bits()) as u8,
            Opcode::XorR { x } => (0xA8 + x.bits()) as u8,
            Opcode::OrR { x } => (0xB0 + x.bits()) as u8,
            Opcode::CpR { x } => (0xB8 + x.bits()) as u8,
            Opcode::AddN => 0xC6,
            Opcode::AdcN => 0xCE,
            Opcode::SubN => 0xD6,
            Opcode::SbcN => 0xDE,
            Opcode::AndN => 0xE6,
            Opcode::XorN => 0xEE,
            Opcode::OrN => 0xF6,
            Opcode::CpN => 0xFE,
            Opcode::RetCc { c } => (0xC0 + 8 * c.bits()) as u8,
            Opcode::Ret => 0xC9,
            Opcode::Reti => 0xD9,
            Opcode::JpCcNn { c } => (0xC2 + 8 * c.bits()) as u8,
            Opcode::JpNn => 0xC3,
            Opcode::JpHl => 0xE9,
            Opcode::CallCcNn { c } => (0xC4 + 8 * c.bits()) as u8,
            Opcode::CallNn => 0xCD,
            Opcode::RstN { x } => (0xC7 + 8 * x) as u8,
            Opcode::PopRr { x } => (0xC1 + 16 * x.bits()) as u8,
            Opcode::PushRr { x } => (0xC5 + 16 * x.bits()) as u8,
            Opcode::Prefix => 0xCB,
            Opcode::LdhCA => 0xE2,
            Opcode::LdhNA => 0xE0,
            Opcode::LdNnA => 0xEA,
            Opcode::LdhAC => 0xF2,
            Opcode::LdhAN => 0xF0,
            Opcode::LdANn => 0xFA,
            Opcode::AddSpE => 0xE8,
            Opcode::LdHlSpPlusE => 0xF8,
            Opcode::LdSpHl => 0xF9,
            Opcode::Di => 0xF3,
            Opcode::Ei => 0xFB,
        }
    }
}

/// The opcode a byte encodes, or `None` for the illegal bytes. `y` is bits
/// 3..=5 of the byte, `p` and `q` its upper two bits and its lowest bit.
pub open spec fn decoded(b: u8) -> Option<Opcode> {
    let z = b % 8;
    let y = (b / 8) % 8;
    let p = y / 2;
    let q = y % 2;
    if b < 0x40 {
        if z == 0 {
            if y == 0 {
                Some(Opcode::Nop)
            } else if y == 1 {
                Some(Opcode::LdNnSp)
            } else if y == 2 {
                Some(Opcode::Stop)
            } else if y == 3 {
                Some(Opcode::JrE)
            } else {
                Some(Opcode::JrCcE { c: Condition::of_bits((y - 4) as u8) })
            }
        } else if z == 1 {
            if q == 0 {
                Some(Opcode::LdRrNn { x: R16::of_bits(p) })
            } else {
                Some(Opcode::AddHlRr { x: R16::of_bits(p) })
            }
        } else if z == 2 {
            if q == 0 {
                Some(Opcode::LdMemA { x: R16Mem::of_bits(p) })
            } else {
                Some(Opcode::LdAMem { x: R16Mem::of_bits(p) })
            }
        } else if z == 3 {
            if q == 0 {
                Some(Opcode::IncRr { x: R16::of_bits(p) })
            } else {
                Some(Opcode::DecRr { x: R16::of_bits(p) })
            }
        } else if z == 4 {
            Some(Opcode::IncR { x: R8::of_bits(y) })
        } else if z == 5 {
            Some(Opcode::DecR { x: R8::of_bits(y) })
        } else if z == 6 {
            Some(Opcode::LdRN { x: R8::of_bits(y) })
        } else if y == 0 {
            Some(Opcode::Rlca)
        } else if y == 1 {
            Some(Opcode::Rrca)
        } else if y == 2 {
            Some(Opcode::Rla)
        } else if y == 3 {
            Some(Opcode::Rra)
        } else if y == 4 {
            Some(Opcode::Daa)
        } else if y == 5 {
            Some(Opcode::Cpl)
        } else if y == 6 {
            Some(Opcode::Scf)
        } else {
            Some(Opcode::Ccf)
        }
    } else if b < 0x80 {
        if b == 0x76 {
            Some(Opcode::Halt)
        } else {
            Some(Opcode::LdRR { x: R8::of_bits(y), y: R8::of_bits(z) })
        }
    } else if b < 0xC0 {
        let x = R8::of_bits(z);
        if y == 0 {
            Some(Opcode::AddR { x })
        } else if y == 1 {
            Some(Opcode::AdcR { x })
        } else if y == 2 {
            Some(Opcode::SubR { x })
        } else if y == 3 {
            Some(Opcode::SbcR { x })
        } else if y == 4 {
            Some(Opcode::AndR { x })
        } else if y == 5 {
            Some(Opcode::XorR { x })
        } else if y == 6 {
            Some(Opcode::OrR { x })
        } else {
            Some(Opcode::CpR { x })
        }
    } else if z == 0 {
        if y < 4 {
            Some(Opcode::RetCc { c: Condition::of_bits(y) })
        } else if y == 4 {
            Some(Opcode::LdhNA)
        } else if y == 5 {
            Some(Opcode::AddSpE)
        } else if y == 6 {
            Some(Opcode::LdhAN)
        } else {
            Some(Opcode::LdHlSpPlusE)
        }
    } else if z == 1 {
        if q == 0 {
            Some(Opcode::PopRr { x: R16Stack::of_bits(p) })
        } else if p == 0 {
            Some(Opcode::Ret)
        } else if p == 1 {
            Some(Opcode::Reti)
        } else if p == 2 {
            Some(Opcode::JpHl)
        } else {
            Some(Opcode::LdSpHl)
        }
    } else if z == 2 {
        if y < 4 {
            Some(Opcode::JpCcNn { c: Condition::of_bits(y) })
        } else if y == 4 {
            Some(Opcode::LdhCA)
        } else if y == 5 {
            Some(Opcode::LdNnA)
        } else if y == 6 {
            Some(Opcode::LdhAC)
        } else {
            Some(Opcode::LdANn)
        }
    } else if z == 3 {
        if y == 0 {
            Some(Opcode::JpNn)
        } else if y == 1 {
            Some(Opcode::Prefix)
        } else if y == 6 {
            Some(Opcode::Di)
        } else if y == 7 {
            Some(Opcode::Ei)
        } else {
            None
        }
    } else if z == 4 {
        if y < 4 {
            Some(Opcode::CallCcNn { c: Condition::of_bits(y) })
        } else {
            None
        }
    } else if z == 5 {
        if q == 0 {
            Some(Opcode::PushRr { x: R16Stack::of_bits(p) })
        } else if p == 0 {
            Some(Opcode::CallNn)
        } else {
            None
        }
    } else if z == 6 {
        if y == 0 {
            Some(Opcode::AddN)
        } else if y == 1 {
            Some(Opcode::AdcN)
        } else if y == 2 {
            Some(Opcode::SubN)
        } else if y == 3 {
            Some(Opcode::SbcN)
        } else if y == 4 {
            Some(Opcode::AndN)
        } else if y == 5 {
            Some(Opcode::XorN)
        } else if y == 6 {
            Some(Opcode::OrN)
        } else {
            Some(Opcode::CpN)
        }
    } else {
        Some(Opcode::RstN { x: y })
    }
}

proof fn lemma_encode_decoded_block0(b: u8)
    requires
        0x00 <= b < 0x40,
    ensures
        decoded(b) is None <==> is_illegal(b),
        decoded(b) matches Some(op) ==> op.wf() && op.encode() == b,
{
}

proof fn lemma_encode_decoded_block1(b: u8)
    requires
        0x40 <= b < 0x80,
    ensures
        decoded(b) is None <==> is_illegal(b),
        decoded(b) matches Some(op) ==> op.wf() && op.encode() == b,
{
}

proof fn lemma_encode_decoded_block2(b: u8)
    requires
        0x80 <= b < 0xC0,
    ensures
        decoded(b) is None <==> is_illegal(b),
        decoded(b) matches Some(op) ==> op.wf() && op.encode() == b,
{
}

proof fn lemma_encode_decoded_block3(b: u8)
    requires
        0xC0 <= b < 0x100,
    ensures
        decoded(b) is None <==> is_illegal(b),
        decoded(b) matches Some(op) ==> op.wf() && op.encode() == b,
{
}

/// Decoding a byte and encoding the result gives the byte back, and exactly
/// the eleven illegal bytes fail to decode.
pub proof fn lemma_encode_decoded(b: u8)
    ensures
        decoded(b) is None <==> is_illegal(b),
        decoded(b) matches Some(op) ==> op.wf() && op.encode() == b,
{
    if b < 0x40 {
        lemma_encode_decoded_block0(b);
    } else if b < 0x80 {
        lemma_encode_decoded_block1(b);
    } else if b < 0xC0 {
        lemma_encode_decoded_block2(b);
    } else {
        lemma_encode_decoded_block3(b);
    }
}

/// The opcodes with an 8-bit register operand decode back from their byte.
proof fn lemma_decode_encoded_r8(op: Opcode)
    requires
        op is IncR || op is DecR || op is LdRN || op is AddR || op is AdcR || op is SubR || op is SbcR
            || op is AndR || op is XorR || op is OrR || op is CpR,
    ensures
        decoded(op.encode()) == Some(op),
{
    match op {
        Opcode::IncR { x } => match x { R8::B => {}, R8::C => {}, R8::D => {}, R8::E => {}, R8::H => {}, R8::L => {}, R8::IndirectHL => {}, R8::A => {} },
        Opcode::DecR { x } => match x { R8::B => {}, R8::C => {}, R8::D => {}, R8::E => {}, R8::H => {}, R8::L => {}, R8::IndirectHL => {}, R8::A => {} },
        Opcode::LdRN { x } => match x { R8::B => {}, R8::C => {}, R8::D => {}, R8::E => {}, R8::H => {}, R8::L => {}, R8::IndirectHL => {}, R8::A => {} },
        Opcode::AddR { x } => match x { R8::B => {}, R8::C => {}, R8::D => {}, R8::E => {}, R8::H => {}, R8::L => {}, R8::IndirectHL => {}, R8::A => {} },
        Opcode::AdcR { x } => match x { R8::B => {}, R8::C => {}, R8::D => {}, R8::E => {}, R8::H => {}, R8::L => {}, R8::IndirectHL => {}, R8::A => {} },
        Opcode::SubR { x } => match x { R8::B => {}, R8::C => {}, R8::D => {}, R8::E => {}, R8::H => {}, R8::L => {}, R8::IndirectHL => {}, R8::A => {} },
        Opcode::SbcR { x } => match x { R8::B => {}, R8::C => {}, R8::D => {}, R8::E => {}, R8::H => {}, R8::L => {}, R8::IndirectHL => {}, R8::A => {} },
        Opcode::AndR { x } => match x { R8::B => {}, R8::C => {}, R8::D => {}, R8::E => {}, R8::H => {}, R8::L => {}, R8::IndirectHL => {}, R8::A => {} },
        Opcode::XorR { x } => match x { R8::B => {}, R8::C => {}, R8::D => {}, R8::E => {}, R8::H => {}, R8::L => {}, R8::IndirectHL => {}, R8::A => {} },
        Opcode::OrR { x } => match x { R8::B => {}, R8::C => {}, R8::D => {}, R8::E => {}, R8::H => {}, R8::L => {}, R8::IndirectHL => {}, R8::A => {} },
        Opcode::CpR { x } => match x { R8::B => {}, R8::C => {}, R8::D => {}, R8::E => {}, R8::H => {}, R8::L => {}, R8::IndirectHL => {}, R8::A => {} },
        _ => {},
    }
}

/// The opcodes with a register-pair, condition or restart operand decode back from their byte.
proof fn lemma_decode_encoded_pairs(op: Opcode)
    requires
        op.wf(),
        op is LdRrNn || op is IncRr || op is DecRr || op is AddHlRr || op is LdMemA || op is LdAMem
            || op is PopRr || op is PushRr || op is JrCcE || op is RetCc || op is JpCcNn || op is CallCcNn
            || op is RstN,
    ensures
        decoded(op.encode()) == Some(op),
{
    match op {
        Opcode::LdRrNn { x } => match x { R16::Bc => {}, R16::De => {}, R16::Hl => {}, R16::Sp => {} },
        Opcode::IncRr { x } => match x { R16::Bc => {}, R16::De => {}, R16::Hl => {}, R16::Sp => {} },
        Opcode::DecRr { x } => match x { R16::Bc => {}, R16::De => {}, R16::Hl => {}, R16::Sp => {} },
        Opcode::AddHlRr { x } => match x { R16::Bc => {}, R16::De => {}, R16::Hl => {}, R16::Sp => {} },
        Opcode::LdMemA { x } => match x { R16Mem::Bc => {}, R16Mem::De => {}, R16Mem::HlInc => {}, R16Mem::HlDec => {} },
        Opcode::LdAMem { x } => match x { R16Mem::Bc => {}, R16Mem::De => {}, R16Mem::HlInc => {}, R16Mem::HlDec => {} },
        Opcode::PopRr { x } => match x { R16Stack::Bc => {}, R16Stack::De => {}, R16Stack::Hl => {}, R16Stack::Af => {} },
        Opcode::PushRr { x } => match x { R16Stack::Bc => {}, R16Stack::De => {}, R16Stack::Hl => {}, R16Stack::Af => {} },
        Opcode::JrCcE { c } => match c { Condition::Nz => {}, Condition::Z => {}, Condition::Nc => {}, Condition::C => {} },
        Opcode::RetCc { c } => match c { Condition::Nz => {}, Condition::Z => {}, Condition::Nc => {}, Condition::C => {} },
        Opcode::JpCcNn { c } => match c { Condition::Nz => {}, Condition::Z => {}, Condition::Nc => {}, Condition::C => {} },
        Opcode::CallCcNn { c } => match c { Condition::Nz => {}, Condition::Z => {}, Condition::Nc => {}, Condition::C => {} },
        Opcode::RstN { x } => { assert(x == 0 || x == 1 || x == 2 || x == 3 || x == 4 || x == 5 || x == 6 || x == 7); },
        _ => {},
    }
}

/// The register-to-register loads decode back from their byte.
proof fn lemma_decode_encoded_loads(op: Opcode)
    requires
        op.wf(),
        op is LdRR,
    ensures
        decoded(op.encode()) == Some(op),
{
    match op {
        Opcode::LdRR { x, y } => match x { R8::B => match y { R8::B => {}, R8::C => {}, R8::D => {}, R8::E => {}, R8::H => {}, R8::L => {}, R8::IndirectHL => {}, R8::A => {} }, R8::C => match y { R8::B => {}, R8::C => {}, R8::D => {}, R8::E => {}, R8::H => {}, R8::L => {}, R8::IndirectHL => {}, R8::A => {} }, R8::D => match y { R8::B => {}, R8::C => {}, R8::D => {}, R8::E => {}, R8::H => {}, R8::L => {}, R8::IndirectHL => {}, R8::A => {} }, R8::E => match y { R8::B => {}, R8::C => {}, R8::D => {}, R8::E => {}, R8::H => {}, R8::L => {}, R8::IndirectHL => {}, R8::A => {} }, R8::H => match y { R8::B => {}, R8::C => {}, R8::D => {}, R8::E => {}, R8::H => {}, R8::L => {}, R8::IndirectHL => {}, R8::A => {} }, R8::L => match y { R8::B => {}, R8::C => {}, R8::D => {}, R8::E => {}, R8::H => {}, R8::L => {}, R8::IndirectHL => {}, R8::A => {} }, R8::IndirectHL => match y { R8::B => {}, R8::C => {}, R8::D => {}, R8::E => {}, R8::H => {}, R8::L => {}, R8::IndirectHL => {}, R8::A => {} }, R8::A => match y { R8::B => {}, R8::C => {}, R8::D => {}, R8::E => {}, R8::H => {}, R8::L => {}, R8::IndirectHL => {}, R8::A => {} } },
        _ => {},
    }
}

/// Every opcode with its operands in range decodes back from its byte.
pub proof fn lemma_decode_encoded(op: Opcode)
    requires
        op.wf(),
    ensures
        decoded(op.encode()) == Some(op),
{
    match op {
        Opcode::IncR { .. } | Opcode::DecR { .. } | Opcode::LdRN { .. } | Opcode::AddR { .. }
        | Opcode::AdcR { .. } | Opcode::SubR { .. } | Opcode::SbcR { .. } | Opcode::AndR { .. }
        | Opcode::XorR { .. } | Opcode::OrR { .. } | Opcode::CpR { .. } => lemma_decode_encoded_r8(op),
        Opcode::LdRrNn { .. } | Opcode::IncRr { .. } | Opcode::DecRr { .. } | Opcode::AddHlRr { .. }
        | Opcode::LdMemA { .. } | Opcode::LdAMem { .. } | Opcode::PopRr { .. } | Opcode::PushRr { .. }
        | Opcode::JrCcE { .. } | Opcode::RetCc { .. } | Opcode::JpCcNn { .. } | Opcode::CallCcNn { .. }
        | Opcode::RstN { .. } => lemma_decode_encoded_pairs(op),
        Opcode::LdRR { .. } => lemma_decode_encoded_loads(op),
        _ => {},
    }
}

impl Opcode {
    /// Decode one opcode byte.
    pub fn decode(b: u8) -> (r: Result<Opcode, CpuError>)
        ensures
            match decoded(b) {
                Some(op) => r == Ok::<Opcode, CpuError>(op),
                None => r == Err::<Opcode, CpuError>(CpuError::IllegalOpcode(b)),
            },
    {
        let z = b % 8;
        let y = (b / 8) % 8;
        let p = y / 2;
        let q = y % 2;
        let op = if b < 0x40 {
            if z == 0 {
                if y == 0 {
                    Opcode::Nop
                } else if y == 1 {
                    Opcode::LdNnSp
                } else if y == 2 {
                    Opcode::Stop
                } else if y == 3 {
                    Opcode::JrE
                } else {
                    Opcode::JrCcE { c: Condition::from_bits(y - 4) }
                }
            } else if z == 1 {
                if q == 0 {
                    Opcode::LdRrNn { x: R16::from_bits(p) }
                } else {
                    Opcode::AddHlRr { x: R16::from_bits(p) }
                }
            } else if z == 2 {
                if q == 0 {
                    Opcode::LdMemA { x: R16Mem::from_bits(p) }
                } else {
                    Opcode::LdAMem { x: R16Mem::from_bits(p) }
                }
            } else if z == 3 {
                if q == 0 {
                    Opcode::IncRr { x: R16::from_bits(p) }
                } else {
                    Opcode::DecRr { x: R16::from_bits(p) }
                }
            } else if z == 4 {
                Opcode::IncR { x: R8::from_bits(y) }
            } else if z == 5 {
                Opcode::DecR { x: R8::from_bits(y) }
            } else if z == 6 {
                Opcode::LdRN { x: R8::from_bits(y) }
            } else if y == 0 {
                Opcode::Rlca
            } else if y == 1 {
                Opcode::Rrca
            } else if y == 2 {
                Opcode::Rla
            } else if y == 3 {
                Opcode::Rra
            } else if y == 4 {
                Opcode::Daa
            } else if y == 5 {
                Opcode::Cpl
            } else if y == 6 {
                Opcode::Scf
            } else {
                Opcode::Ccf
            }
        } else if b < 0x80 {
            if b == 0x76 {
                Opcode::Halt
            } else {
                Opcode::LdRR { x: R8::from_bits(y), y: R8::from_bits(z) }
            }
        } else if b < 0xC0 {
            let x = R8::from_bits(z);
            if y == 0 {
                Opcode::AddR { x }
            } else if y == 1 {
                Opcode::AdcR { x }
            } else if y == 2 {
                Opcode::SubR { x }
            } else if y == 3 {
                Opcode::SbcR { x }
            } else if y == 4 {
                Opcode::AndR { x }
            } else if y == 5 {
                Opcode::XorR { x }
            } else if y == 6 {
                Opcode::OrR { x }
            } else {
                Opcode::CpR { x }
            }
        } else if z == 0 {
            if y < 4 {
                Opcode::RetCc { c: Condition::from_bits(y) }
            } else if y == 4 {
                Opcode::LdhNA
            } else if y == 5 {
                Opcode::AddSpE
            } else if y == 6 {
                Opcode::LdhAN
            } else {
                Opcode::LdHlSpPlusE
            }
        } else if z == 1 {
            if q == 0 {
                Opcode::PopRr { x: R16Stack::from_bits(p) }
            } else if p == 0 {
                Opcode::Ret
            } else if p == 1 {
                Opcode::Reti
            } else if p == 2 {
                Opcode::JpHl
            } else {
                Opcode::LdSpHl
            }
        } else if z == 2 {
            if y < 4 {
                Opcode::JpCcNn { c: Condition::from_bits(y) }
            } else if y == 4 {
                Opcode::LdhCA
            } else if y == 5 {
                Opcode::LdNnA
            } else if y == 6 {
                Opcode::LdhAC
            } else {
                Opcode::LdANn
            }
        } else if z == 3 {
            if y == 0 {
                Opcode::JpNn
            } else if y == 1 {
                Opcode::Prefix
            } else if y == 6 {
                Opcode::Di
            } else if y == 7 {
                Opcode::Ei
            } else {
                return Err(CpuError::IllegalOpcode(b));
            }
        } else if z == 4 {
            if y < 4 {
                Opcode::CallCcNn { c: Condition::from_bits(y) }
            } else {
                return Err(CpuError::IllegalOpcode(b));
            }
        } else if z == 5 {
            if q == 0 {
                Opcode::PushRr { x: R16Stack::from_bits(p) }
            } else if p == 0 {
                Opcode::CallNn
            } else {
                return Err(CpuError::IllegalOpcode(b));
            }
        } else if z == 6 {
            if y == 0 {
                Opcode::AddN
            } else if y == 1 {
                Opcode::AdcN
            } else if y == 2 {
                Opcode::SubN
            } else if y == 3 {
                Opcode::SbcN
            } else if y == 4 {
                Opcode::AndN
            } else if y == 5 {
                Opcode::XorN
            } else if y == 6 {
                Opcode::OrN
            } else {
                Opcode::CpN
            }
        } else {
            Opcode::RstN { x: y }
        };
        Ok(op)
    }
}

impl PrefixOpcode {
    pub open spec fn wf(self) -> bool {
        match self {
            PrefixOpcode::BitBR { b, .. } => b < 8,
            PrefixOpcode::ResBR { b, .. } => b < 8,
            PrefixOpcode::SetBR { b, .. } => b < 8,
            _ => true,
        }
    }

    /// The byte after 0xCB that encodes this opcode.
    pub open spec fn encode(self) -> u8 {
        match self {
            PrefixOpcode::RlcR { x } => x.bits(),
            PrefixOpcode::RrcR { x } => (0x08 + x.bits()) as u8,
            PrefixOpcode::RlR { x } => (0x10 + x.bits()) as u8,
            PrefixOpcode::RrR { x } => (0x18 + x.bits()) as u8,
            PrefixOpcode::SlaR { x } => (0x20 + x.bits()) as u8,
            PrefixOpcode::SraR { x } => (0x28 + x.bits()) as u8,
            PrefixOpcode::SwapR { x } => (0x30 + x.bits()) as u8,
            PrefixOpcode::SrlR { x } => (0x38 + x.bits()) as u8,
            PrefixOpcode::BitBR { b, x } => (0x40 + 8 * b + x.bits()) as u8,
            PrefixOpcode::ResBR { b, x } => (0x80 + 8 * b + x.bits()) as u8,
            PrefixOpcode::SetBR { b, x } => (0xC0 + 8 * b + x.bits()) as u8,
        }
    }

    /// The opcode that the byte after 0xCB encodes; every byte is one.
    pub open spec fn decoded(b: u8) -> PrefixOpcode {
        let x = R8::of_bits(b % 8);
        let y = (b / 8) % 8;
        if b < 0x40 {
            if y == 0 {
                PrefixOpcode::RlcR { x }
            } else if y == 1 {
                PrefixOpcode::RrcR { x }
            } else if y == 2 {
                PrefixOpcode::RlR { x }
            } else if y == 3 {
                PrefixOpcode::RrR { x }
            } else if y == 4 {
                PrefixOpcode::SlaR { x }
            } else if y == 5 {
                PrefixOpcode::SraR { x }
            } else if y == 6 {
                PrefixOpcode::SwapR { x }
            } else {
                PrefixOpcode::SrlR { x }
            }
        } else if b < 0x80 {
            PrefixOpcode::BitBR { b: y, x }
        } else if b < 0xC0 {
            PrefixOpcode::ResBR { b: y, x }
        } else {
            PrefixOpcode::SetBR { b: y, x }
        }
    }

    /// Decode the byte after 0xCB.
    pub fn decode(b: u8) -> (r: PrefixOpcode)
        ensures
            r == PrefixOpcode::decoded(b),
            r.wf(),
    {
        let x = R8::from_bits(b % 8);
        let y = (b / 8) % 8;
        if b < 0x40 {
            if y == 0 {
                PrefixOpcode::RlcR { x }
            } else if y == 1 {
                PrefixOpcode::RrcR { x }
            } else if y == 2 {
                PrefixOpcode::RlR { x }
            } else if y == 3 {
                PrefixOpcode::RrR { x }
            } else if y == 4 {
                PrefixOpcode::SlaR { x }
            } else if y == 5 {
                PrefixOpcode::SraR { x }
            } else if y == 6 {
                PrefixOpcode::SwapR { x }
            } else {
                PrefixOpcode::SrlR { x }
            }
        } else if b < 0x80 {
            PrefixOpcode::BitBR { b: y, x }
        } else if b < 0xC0 {
            PrefixOpcode::ResBR { b: y, x }
        } else {
            PrefixOpcode::SetBR { b: y, x }
        }
    }
}

/// Decoding the byte after 0xCB and encoding the result gives the byte back.
pub proof fn lemma_prefix_encode_decoded(b: u8)
    ensures
        PrefixOpcode::decoded(b).wf(),
        PrefixOpcode::decoded(b).encode() == b,
{
}

/// Every prefixed opcode with its bit index in range decodes back from its byte.
pub proof fn lemma_prefix_decode_encoded(op: PrefixOpcode)
    requires
        op.wf(),
    ensures
        PrefixOpcode::decoded(op.encode()) == op,
{
    match op {
        PrefixOpcode::RlcR { x } => match x { R8::B => {}, R8::C => {}, R8::D => {}, R8::E => {}, R8::H => {}, R8::L => {}, R8::IndirectHL => {}, R8::A => {} },
        PrefixOpcode::RrcR { x } => match x { R8::B => {}, R8::C => {}, R8::D => {}, R8::E => {}, R8::H => {}, R8::L => {}, R8::IndirectHL => {}, R8::A => {} },
        PrefixOpcode::RlR { x } => match x { R8::B => {}, R8::C => {}, R8::D => {}, R8::E => {}, R8::H => {}, R8::L => {}, R8::IndirectHL => {}, R8::A => {} },
        PrefixOpcode::RrR { x } => match x { R8::B => {}, R8::C => {}, R8::D => {}, R8::E => {}, R8::H => {}, R8::L => {}, R8::IndirectHL => {}, R8::A => {} },
        PrefixOpcode::SlaR { x } => match x { R8::B => {}, R8::C => {}, R8::D => {}, R8::E => {}, R8::H => {}, R8::L => {}, R8::IndirectHL => {}, R8::A => {} },
        PrefixOpcode::SraR { x } => match x { R8::B => {}, R8::C => {}, R8::D => {}, R8::E => {}, R8::H => {}, R8::L => {}, R8::IndirectHL => {}, R8::A => {} },
        PrefixOpcode::SwapR { x } => match x { R8::B => {}, R8::C => {}, R8::D => {}, R8::E => {}, R8::H => {}, R8::L => {}, R8::IndirectHL => {}, R8::A => {} },
        PrefixOpcode::SrlR { x } => match x { R8::B => {}, R8::C => {}, R8::D => {}, R8::E => {}, R8::H => {}, R8::L => {}, R8::IndirectHL => {}, R8::A => {} },
        PrefixOpcode::BitBR { b, x } => {
            assert(b == 0 || b == 1 || b == 2 || b == 3 || b == 4 || b == 5 || b == 6 || b == 7);
            match x { R8::B => {}, R8::C => {}, R8::D => {}, R8::E => {}, R8::H => {}, R8::L => {}, R8::IndirectHL => {}, R8::A => {} }
        },
        PrefixOpcode::ResBR { b, x } => {
            assert(b == 0 || b == 1 || b == 2 || b == 3 || b == 4 || b == 5 || b == 6 || b == 7);
            match x { R8::B => {}, R8::C => {}, R8::D => {}, R8::E => {}, R8::H => {}, R8::L => {}, R8::IndirectHL => {}, R8::A => {} }
        },
        PrefixOpcode::SetBR { b, x } => {
            assert(b == 0 || b == 1 || b == 2 || b == 3 || b == 4 || b == 5 || b == 6 || b == 7);
            match x { R8::B => {}, R8::C => {}, R8::D => {}, R8::E => {}, R8::H => {}, R8::L => {}, R8::IndirectHL => {}, R8::A => {} }
        },
    }
}

/// The M-cycles an opcode takes besides its accesses to (HL), with any
/// branch not taken; 0 for the opcodes that count their cycles as they go.
pub open spec fn base_m_cycles(op: Opcode) -> u16 {
    match op {
        Opcode::LdRrNn { .. } => 3,
        Opcode::LdMemA { .. } | Opcode::LdAMem { .. } => 2,
        Opcode::LdNnSp => 5,
        Opcode::IncRr { .. } | Opcode::DecRr { .. } | Opcode::AddHlRr { .. } => 2,
        Opcode::LdRN { .. } => 0,
        Opcode::JrE => 3,
        Opcode::JrCcE { .. } => 2,
        Opcode::AddN | Opcode::AdcN | Opcode::SubN | Opcode::SbcN | Opcode::AndN | Opcode::XorN
        | Opcode::OrN | Opcode::CpN => 2,
        Opcode::RetCc { .. } => 2,
        Opcode::Ret | Opcode::Reti => 4,
        Opcode::JpCcNn { .. } => 3,
        Opcode::JpNn => 4,
        Opcode::CallCcNn { .. } | Opcode::CallNn => 0,
        Opcode::RstN { .. } => 4,
        Opcode::PopRr { .. } => 3,
        Opcode::PushRr { .. } => 4,
        Opcode::Prefix => 0,
        Opcode::LdhCA => 2,
        Opcode::LdhNA | Opcode::LdNnA | Opcode::LdhAC | Opcode::LdhAN | Opcode::LdANn => 0,
        Opcode::AddSpE => 4,
        Opcode::LdHlSpPlusE => 3,
        Opcode::LdSpHl => 2,
        _ => 1,
    }
}

/// The opcode's base length in M-cycles (see `base_m_cycles`).
pub fn m_cycles(op: Opcode) -> (r: u16)
    ensures
        r == base_m_cycles(op),
{
    match op {
        Opcode::LdRrNn { .. } => 3,
        Opcode::LdMemA { .. } | Opcode::LdAMem { .. } => 2,
        Opcode::LdNnSp => 5,
        Opcode::IncRr { .. } | Opcode::DecRr { .. } | Opcode::AddHlRr { .. } => 2,
        Opcode::LdRN { .. } => 0,
        Opcode::JrE => 3,
        Opcode::JrCcE { .. } => 2,
        Opcode::AddN | Opcode::AdcN | Opcode::SubN | Opcode::SbcN | Opcode::AndN | Opcode::XorN
        | Opcode::OrN | Opcode::CpN => 2,
        Opcode::RetCc { .. } => 2,
        Opcode::Ret | Opcode::Reti => 4,
        Opcode::JpCcNn { .. } => 3,
        Opcode::JpNn => 4,
        Opcode::CallCcNn { .. } | Opcode::CallNn => 0,
        Opcode::RstN { .. } => 4,
        Opcode::PopRr { .. } => 3,
        Opcode::PushRr { .. } => 4,
        Opcode::Prefix => 0,
        Opcode::LdhCA => 2,
        Opcode::LdhNA | Opcode::LdNnA | Opcode::LdhAC | Opcode::LdhAN | Opcode::LdANn => 0,
        Opcode::AddSpE => 4,
        Opcode::LdHlSpPlusE => 3,
        Opcode::LdSpHl => 2,
        _ => 1,
    }
}

} // verus!
