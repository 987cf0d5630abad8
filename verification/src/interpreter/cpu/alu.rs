//! The arithmetic of SM83 instructions on plain values: 8-bit ALU
//! operations, rotates and shifts, decimal adjust, and signed offsets.
use vstd::prelude::*;
use crate::interpreter::cpu::isa::{
    add16, add_with_carry, alu, daa, rl, rlc, rr, rrc, signed8, sla, sra, srl, sub_with_carry,
    swap, AluKind,
};
use crate::interpreter::cpu::registers::Flags;

verus! {

pub fn add_carry(a: u8, v: u8, carry: bool) -> (r: (u8, Flags))
    ensures
        r == add_with_carry(a, v, carry),
{
    let cin: u16 = if carry { 1 } else { 0 };
    let sum: u16 = a as u16 + v as u16 + cin;
    let half: u16 = (a % 16) as u16 + (v % 16) as u16 + cin;
    let res = (sum % 256) as u8;
    (res, Flags { z: res == 0, n: false, h: half > 15, c: sum > 255 })
}

pub fn sub_carry(a: u8, v: u8, carry: bool) -> (r: (u8, Flags))
    ensures
        r == sub_with_carry(a, v, carry),
{
    let cin: u16 = if carry { 1 } else { 0 };
    let diff: u16 = a as u16 + 512 - v as u16 - cin;
    let res = (diff % 256) as u8;
    (
        res,
        Flags {
            z: res == 0,
            n: true,
            h: ((a % 16) as u16) < (v % 16) as u16 + cin,
            c: (a as u16) < v as u16 + cin,
        },
    )
}

/// An 8-bit ALU operation: the new A and flags.
pub fn alu_op(kind: AluKind, a: u8, v: u8, f: Flags) -> (r: (u8, Flags))
    ensures
        r == alu(kind, a, v, f),
{
    match kind {
        AluKind::Add => add_carry(a, v, false),
        AluKind::Adc => add_carry(a, v, f.c),
        AluKind::Sub => sub_carry(a, v, false),
        AluKind::Sbc => sub_carry(a, v, f.c),
        AluKind::And => {
            let res = a & v;
            (res, Flags { z: res == 0, n: false, h: true, c: false })
        },
        AluKind::Xor => {
            let res = a ^ v;
            (res, Flags { z: res == 0, n: false, h: false, c: false })
        },
        AluKind::Or => {
            let res = a | v;
            (res, Flags { z: res == 0, n: false, h: false, c: false })
        },
        AluKind::Cp => (a, sub_carry(a, v, false).1),
    }
}

pub fn rotate_left(v: u8) -> (r: (u8, bool))
    ensures
        r == rlc(v),
{
    ((v % 128) * 2 + v / 128, v >= 128)
}

pub fn rotate_right(v: u8) -> (r: (u8, bool))
    ensures
        r == rrc(v),
{
    (v / 2 + (v % 2) * 128, v % 2 == 1)
}

pub fn rotate_left_carry(v: u8, carry: bool) -> (r: (u8, bool))
    ensures
        r == rl(v, carry),
{
    let cin: u8 = if carry { 1 } else { 0 };
    ((v % 128) * 2 + cin, v >= 128)
}

pub fn rotate_right_carry(v: u8, carry: bool) -> (r: (u8, bool))
    ensures
        r == rr(v, carry),
{
    let cin: u8 = if carry { 128 } else { 0 };
    (v / 2 + cin, v % 2 == 1)
}

pub fn shift_left(v: u8) -> (r: (u8, bool))
    ensures
        r == sla(v),
{
    ((v % 128) * 2, v >= 128)
}

pub fn shift_right_arithmetic(v: u8) -> (r: (u8, bool))
    ensures
        r == sra(v),
{
    (v / 2 + (v / 128) * 128, v % 2 == 1)
}

pub fn swap_nibbles(v: u8) -> (r: (u8, bool))
    ensures
        r == swap(v),
{
    ((v % 16) * 16 + v / 16, false)
}

pub fn shift_right_logical(v: u8) -> (r: (u8, bool))
    ensures
        r == srl(v),
{
    (v / 2, v % 2 == 1)
}

/// Decimal adjust of A after a BCD addition or subtraction.
pub fn decimal_adjust(a: u8, f: Flags) -> (r: (u8, Flags))
    ensures
        r == daa(a, f),
{
    let mut adjustment: u16 = 0;
    let mut new_carry = false;
    let result: u8 = if f.n {
        if f.h {
            adjustment += 0x06;
        }
        if f.c {
            adjustment += 0x60;
            new_carry = true;
        }
        ((a as u16 + 256 - adjustment) % 256) as u8
    } else {
        if f.h || a % 16 > 0x09 {
            adjustment += 0x06;
        }
        if f.c || a > 0x99 {
            adjustment += 0x60;
            new_carry = true;
        }
        ((a as u16 + adjustment) % 256) as u8
    };
    (result, Flags { z: result == 0, n: f.n, h: false, c: new_carry })
}

/// `x` plus the signed byte `e` plus `extra`, on 16 bits, wrapping.
pub fn add_signed(x: u16, e: u8, extra: u16) -> (r: u16)
    ensures
        r == add16(x, signed8(e) + extra),
{
    let sum: u32 = x as u32 + e as u32 + extra as u32;
    let adjusted: u32 = if e < 128 { sum } else { sum + 0x10000 - 256 };
    (adjusted % 0x10000) as u16
}

/// SP plus a signed byte with the flags of the unsigned low-byte sum.
pub fn sp_plus_e(sp: u16, e: u8) -> (r: (u16, Flags))
    ensures
        r.0 == add16(sp, signed8(e)),
        r.1 == (Flags { z: false, n: false, h: sp % 16 + e % 16 > 15, c: sp % 256 + e > 255 }),
{
    let result = add_signed(sp, e, 0);
    let carry = (sp % 256) + (e as u16) > 255;
    let half_carry = (sp % 16) + (e as u16 % 16) > 15;
    (result, Flags { z: false, n: false, h: half_carry, c: carry })
}

} // verus!
