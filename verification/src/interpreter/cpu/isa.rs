//! What each SM83 instruction does, stated over a mathematical model of the
//! CPU: the registers, 64 KiB of memory as a sequence, the interrupt master
//! enable and the halt flag. Cycle counts are given separately.
use vstd::prelude::*;
use crate::bits::bit_of;
use crate::hw_constants::IE;
use crate::io_regs::{BANK, IF};
use crate::interpreter::bus::{lemma_unmapped, unmapped};
use crate::interpreter::cpu::opcodes::{base_m_cycles, Opcode, PrefixOpcode};
use crate::interpreter::cpu::parameters::{Condition, R16, R16Mem, R16Stack, R8};
use crate::interpreter::cpu::registers::{
    hi_byte, lemma_flags_byte, lemma_word_bytes, lo_byte, word, Flags, Registers,
};

verus! {

pub struct CpuModel {
    pub regs: Registers,
    pub mem: Seq<u8>,
    pub ime: bool,
    pub halted: bool,
    /// Whether the boot ROM covers 0x0000..0x0100.
    pub boot_rom_mounted: bool,
    /// The cartridge's first 256 bytes, under the boot ROM while it is mapped.
    pub under_boot_rom: Seq<u8>,
}

/// `x + d` on 16 bits, wrapping.
pub open spec fn add16(x: u16, d: int) -> u16 {
    ((x + d) % 0x10000) as u16
}

/// `x` reduced to 8 bits, wrapping.
pub open spec fn wrap8(x: int) -> u8 {
    (x % 256) as u8
}

/// A byte read as a two's-complement offset.
pub open spec fn signed8(e: u8) -> int {
    if e < 128 {
        e as int
    } else {
        e - 256
    }
}

/// 1 for the operand (HL), which costs a memory access, else 0.
pub open spec fn hl_access(r: R8) -> nat {
    if r == R8::IndirectHL {
        1
    } else {
        0
    }
}

/// The eight 8-bit arithmetic and logic operations on A.
#[derive(Clone, Copy, PartialEq, Eq, Structural, Debug)]
pub enum AluKind {
    Add,
    Adc,
    Sub,
    Sbc,
    And,
    Xor,
    Or,
    Cp,
}

/// `a + v + carry`: the result and the flags it sets.
pub open spec fn add_with_carry(a: u8, v: u8, carry: bool) -> (u8, Flags) {
    let cin: int = if carry { 1 } else { 0 };
    let r = wrap8(a + v + cin);
    (r, Flags { z: r == 0, n: false, h: a % 16 + v % 16 + cin > 15, c: a + v + cin > 255 })
}

/// `a - v - carry`: the result and the flags it sets.
pub open spec fn sub_with_carry(a: u8, v: u8, carry: bool) -> (u8, Flags) {
    let cin: int = if carry { 1 } else { 0 };
    let r = wrap8(a - v - cin);
    (r, Flags { z: r == 0, n: true, h: a % 16 < v % 16 + cin, c: a < v + cin })
}

/// The new A and flags of an 8-bit ALU operation with operand `v`.
pub open spec fn alu(kind: AluKind, a: u8, v: u8, f: Flags) -> (u8, Flags) {
    match kind {
        AluKind::Add => add_with_carry(a, v, false),
        AluKind::Adc => add_with_carry(a, v, f.c),
        AluKind::Sub => sub_with_carry(a, v, false),
        AluKind::Sbc => sub_with_carry(a, v, f.c),
        AluKind::And => (a & v, Flags { z: a & v == 0, n: false, h: true, c: false }),
        AluKind::Xor => (a ^ v, Flags { z: a ^ v == 0, n: false, h: false, c: false }),
        AluKind::Or => (a | v, Flags { z: a | v == 0, n: false, h: false, c: false }),
        AluKind::Cp => (a, sub_with_carry(a, v, false).1),
    }
}

/// Rotate left; bit 7 goes to bit 0 and to the carry.
pub open spec fn rlc(v: u8) -> (u8, bool) {
    (((v % 128) * 2 + v / 128) as u8, v >= 128)
}

/// Rotate right; bit 0 goes to bit 7 and to the carry.
pub open spec fn rrc(v: u8) -> (u8, bool) {
    ((v / 2 + (v % 2) * 128) as u8, v % 2 == 1)
}

/// Rotate left through the carry.
pub open spec fn rl(v: u8, carry: bool) -> (u8, bool) {
    (((v % 128) * 2 + (if carry { 1int } else { 0 })) as u8, v >= 128)
}

/// Rotate right through the carry.
pub open spec fn rr(v: u8, carry: bool) -> (u8, bool) {
    ((v / 2 + (if carry { 128int } else { 0 })) as u8, v % 2 == 1)
}

/// Shift left; bit 7 goes to the carry.
pub open spec fn sla(v: u8) -> (u8, bool) {
    (((v % 128) * 2) as u8, v >= 128)
}

/// Shift right keeping bit 7; bit 0 goes to the carry.
pub open spec fn sra(v: u8) -> (u8, bool) {
    ((v / 2 + (v / 128) * 128) as u8, v % 2 == 1)
}

/// Exchange the two nibbles.
pub open spec fn swap(v: u8) -> (u8, bool) {
    (((v % 16) * 16 + v / 16) as u8, false)
}

/// Shift right; bit 0 goes to the carry.
pub open spec fn srl(v: u8) -> (u8, bool) {
    ((v / 2) as u8, v % 2 == 1)
}

/// Decimal adjust of A after a BCD addition or subtraction.
pub open spec fn daa(a: u8, f: Flags) -> (u8, Flags) {
    if f.n {
        let adj: int = (if f.h { 0x06int } else { 0 }) + (if f.c { 0x60int } else { 0 });
        let r = wrap8(a - adj);
        (r, Flags { z: r == 0, n: true, h: false, c: f.c })
    } else {
        let adj: int = (if f.h || a % 16 > 9 { 0x06int } else { 0 }) + (if f.c || a > 0x99 {
            0x60int
        } else {
            0
        });
        let r = wrap8(a + adj);
        (r, Flags { z: r == 0, n: false, h: false, c: f.c || a > 0x99 })
    }
}

/// Whether `x` is packed BCD: two decimal digits, one per nibble.
pub open spec fn is_bcd(x: u8) -> bool {
    x / 16 < 10 && x % 16 < 10
}

/// The number a packed BCD byte stands for.
pub open spec fn bcd_value(x: u8) -> int {
    (x / 16) * 10 + x % 16
}

/// SUB followed by DAA subtracts in decimal: on two BCD bytes it leaves
/// the BCD difference (borrowing from 100 below zero) and sets the carry
/// exactly when there was a borrow.
pub proof fn lemma_daa_after_sub(a: u8, b: u8)
    requires
        is_bcd(a),
        is_bcd(b),
    ensures
        ({
            let (r, f) = sub_with_carry(a, b, false);
            let (d, g) = daa(r, f);
            &&& is_bcd(d)
            &&& bcd_value(d) == (if bcd_value(a) >= bcd_value(b) {
                bcd_value(a) - bcd_value(b)
            } else {
                100 + bcd_value(a) - bcd_value(b)
            })
            &&& g.c == (bcd_value(a) < bcd_value(b))
            &&& g.n
        }),
{
    let ah: int = (a / 16) as int;
    let al: int = (a % 16) as int;
    let bh: int = (b / 16) as int;
    let bl: int = (b % 16) as int;
    assert(a == 16 * ah + al && b == 16 * bh + bl);
    let r = sub_with_carry(a, b, false).0;
    let f = sub_with_carry(a, b, false).1;
    assert(f.h == (al < bl) && f.c == (a < b) && f.n);
    let x: int = a - b;
    lemma_wrap8_small(x);
    assert(r == (if x < 0 { x + 256 } else { x }));
    let adj: int = (if f.h { 0x06int } else { 0 }) + (if f.c { 0x60int } else { 0 });
    let y: int = r - adj;
    lemma_wrap8_small(y);
    let d = daa(r, f).0;
    assert(d == (if y < 0 { y + 256 } else { y }));
    let (hi, lo): (int, int) = if al >= bl && ah >= bh {
        (ah - bh, al - bl)
    } else if al < bl && ah > bh {
        (ah - bh - 1, 10 + al - bl)
    } else if al >= bl {
        (10 + ah - bh, al - bl)
    } else {
        (9 + ah - bh, 10 + al - bl)
    };
    assert(d == 16 * hi + lo);
    lemma_digits(d as int, hi, lo);
}

/// ADD followed by DAA adds in decimal: on two BCD bytes it leaves the BCD
/// sum modulo 100 and sets the carry exactly when the sum reaches 100.
pub proof fn lemma_daa_after_add(a: u8, b: u8)
    requires
        is_bcd(a),
        is_bcd(b),
    ensures
        ({
            let (r, f) = add_with_carry(a, b, false);
            let (d, g) = daa(r, f);
            &&& is_bcd(d)
            &&& bcd_value(d) == (if bcd_value(a) + bcd_value(b) >= 100 {
                bcd_value(a) + bcd_value(b) - 100
            } else {
                bcd_value(a) + bcd_value(b)
            })
            &&& g.c == (bcd_value(a) + bcd_value(b) >= 100)
            &&& !g.n
        }),
{
    let ah: int = (a / 16) as int;
    let al: int = (a % 16) as int;
    let bh: int = (b / 16) as int;
    let bl: int = (b % 16) as int;
    assert(a == 16 * ah + al && b == 16 * bh + bl);
    let r = add_with_carry(a, b, false).0;
    let f = add_with_carry(a, b, false).1;
    let x: int = a + b;
    lemma_wrap8_up(x);
    assert(r == (if x >= 256 { x - 256 } else { x }));
    assert(f.h == (al + bl > 15) && f.c == (x > 255) && !f.n);
    let sl = al + bl;
    let carry1: int = if sl >= 10 { 1 } else { 0 };
    let lo: int = sl - 10 * carry1;
    let hs = ah + bh + carry1;
    let hi: int = if hs >= 10 { hs - 10 } else { hs };
    if sl >= 16 {
        lemma_digits(r as int, (ah + bh + 1) % 16, sl - 16);
    } else {
        lemma_digits(r as int, (ah + bh) % 16, sl);
    }
    let adj: int = (if f.h || r % 16 > 9 { 0x06int } else { 0 }) + (if f.c || r > 0x99 { 0x60int } else {
        0
    });
    let y: int = r + adj;
    lemma_wrap8_up(y);
    let d = daa(r, f).0;
    assert(d == 16 * hi + lo);
    lemma_digits(d as int, hi, lo);
}

/// A value between 0 and 511 reduced to a byte.
proof fn lemma_wrap8_up(x: int)
    requires
        0 <= x < 512,
    ensures
        wrap8(x) == (if x >= 256 { x - 256 } else { x }),
{
    if x >= 256 {
        vstd::arithmetic::div_mod::lemma_fundamental_div_mod_converse(x, 256, 1, x - 256);
    } else {
        vstd::arithmetic::div_mod::lemma_fundamental_div_mod_converse(x, 256, 0, x);
    }
}

/// A value between -256 and 255 reduced to a byte.
proof fn lemma_wrap8_small(x: int)
    requires
        -256 <= x < 256,
    ensures
        wrap8(x) == (if x < 0 { x + 256 } else { x }),
{
    if x < 0 {
        vstd::arithmetic::div_mod::lemma_fundamental_div_mod_converse(x, 256, -1, x + 256);
    } else {
        vstd::arithmetic::div_mod::lemma_fundamental_div_mod_converse(x, 256, 0, x);
    }
}

/// The two nibbles of `16 * hi + lo`.
proof fn lemma_digits(d: int, hi: int, lo: int)
    requires
        d == 16 * hi + lo,
        0 <= lo < 16,
    ensures
        d / 16 == hi,
        d % 16 == lo,
{
    vstd::arithmetic::div_mod::lemma_fundamental_div_mod_converse(d, 16, hi, lo);
}

/// Memory after storing `v` at `addr`. Storing to the BANK register while
/// the boot ROM is mapped unmaps it first, putting `under` back in place.
#[verifier::opaque]
pub open spec fn stored(mem: Seq<u8>, mounted: bool, under: Seq<u8>, addr: u16, v: u8) -> Seq<u8> {
    if addr == BANK && mounted {
        unmapped(mem, under).update(addr as int, v)
    } else {
        mem.update(addr as int, v)
    }
}

impl CpuModel {
    pub open spec fn read(self, addr: u16) -> u8 {
        self.mem[addr as int]
    }

    pub open spec fn write(self, addr: u16, v: u8) -> CpuModel {
        CpuModel {
            mem: stored(self.mem, self.boot_rom_mounted, self.under_boot_rom, addr, v),
            boot_rom_mounted: self.boot_rom_mounted && addr != BANK,
            ..self
        }
    }

    pub open spec fn with_regs(self, regs: Registers) -> CpuModel {
        CpuModel { regs, ..self }
    }

    pub open spec fn with_pc(self, pc: u16) -> CpuModel {
        self.with_regs(Registers { pc, ..self.regs })
    }

    pub open spec fn with_sp(self, sp: u16) -> CpuModel {
        self.with_regs(Registers { sp, ..self.regs })
    }

    pub open spec fn with_a(self, a: u8) -> CpuModel {
        self.with_regs(Registers { a, ..self.regs })
    }

    pub open spec fn with_flags(self, f: Flags) -> CpuModel {
        self.with_regs(Registers { f, ..self.regs })
    }

    /// PC moved past an instruction of `len` bytes.
    pub open spec fn next_pc(self, len: int) -> CpuModel {
        self.with_pc(add16(self.regs.pc, len))
    }

    /// The byte after the opcode.
    pub open spec fn imm8(self) -> u8 {
        self.read(add16(self.regs.pc, 1))
    }

    /// The little-endian word after the opcode.
    pub open spec fn imm16(self) -> u16 {
        word(self.read(add16(self.regs.pc, 1)), self.read(add16(self.regs.pc, 2)))
    }

    pub open spec fn r8(self, r: R8) -> u8 {
        if r == R8::IndirectHL {
            self.read(self.regs.hl_spec())
        } else {
            self.regs.get_r8(r)
        }
    }

    pub open spec fn set_r8(self, r: R8, v: u8) -> CpuModel {
        if r == R8::IndirectHL {
            self.write(self.regs.hl_spec(), v)
        } else {
            self.with_regs(self.regs.with_r8(r, v))
        }
    }

    pub open spec fn condition(self, c: Condition) -> bool {
        match c {
            Condition::Nz => !self.regs.f.z,
            Condition::Z => self.regs.f.z,
            Condition::Nc => !self.regs.f.c,
            Condition::C => self.regs.f.c,
        }
    }

    /// Push a word: SP drops by 2, the low byte goes to the new SP and the
    /// high byte above it.
    pub open spec fn push(self, v: u16) -> CpuModel {
        let sp = add16(self.regs.sp, -2);
        self.with_sp(sp).write(sp, lo_byte(v)).write(add16(sp, 1), hi_byte(v))
    }

    /// The word on top of the stack.
    pub open spec fn top(self) -> u16 {
        word(self.read(self.regs.sp), self.read(add16(self.regs.sp, 1)))
    }

    pub open spec fn pop(self) -> CpuModel {
        self.with_sp(add16(self.regs.sp, 2))
    }

    /// The address that `LD (rr), A` and `LD A, (rr)` use.
    pub open spec fn mem_addr(self, x: R16Mem) -> u16 {
        match x {
            R16Mem::Bc => self.regs.bc_spec(),
            R16Mem::De => self.regs.de_spec(),
            _ => self.regs.hl_spec(),
        }
    }

    /// HL stepped after `LD (HL+), A` and the like.
    pub open spec fn mem_addr_step(self, x: R16Mem) -> CpuModel {
        match x {
            R16Mem::HlInc => self.with_regs(
                self.regs.with_r16(R16::Hl, add16(self.regs.hl_spec(), 1)),
            ),
            R16Mem::HlDec => self.with_regs(
                self.regs.with_r16(R16::Hl, add16(self.regs.hl_spec(), -1)),
            ),
            _ => self,
        }
    }

    /// An ALU operation on A with operand `v`.
    pub open spec fn alu_apply(self, kind: AluKind, v: u8) -> CpuModel {
        let (r, f) = alu(kind, self.regs.a, v, self.regs.f);
        self.with_a(r).with_flags(f)
    }

    /// SP plus a signed byte, as `ADD SP, e` and `LD HL, SP+e` compute it,
    /// with the flags they set from the unsigned low-byte addition.
    pub open spec fn sp_plus(self, e: u8) -> (u16, Flags) {
        let sp = self.regs.sp;
        (
            add16(sp, signed8(e)),
            Flags { z: false, n: false, h: sp % 16 + e % 16 > 15, c: sp % 256 + e > 255 },
        )
    }
}

/// The result and carry of the rotate or shift named by a prefixed opcode.
pub open spec fn shift_result(op: PrefixOpcode, v: u8, carry: bool) -> (u8, bool) {
    match op {
        PrefixOpcode::RlcR { .. } => rlc(v),
        PrefixOpcode::RrcR { .. } => rrc(v),
        PrefixOpcode::RlR { .. } => rl(v, carry),
        PrefixOpcode::RrR { .. } => rr(v, carry),
        PrefixOpcode::SlaR { .. } => sla(v),
        PrefixOpcode::SraR { .. } => sra(v),
        PrefixOpcode::SwapR { .. } => swap(v),
        _ => srl(v),
    }
}

/// The effect of a prefixed opcode (without the move of PC).
pub open spec fn prefix_effect(s: CpuModel, op: PrefixOpcode) -> CpuModel {
    match op {
        PrefixOpcode::BitBR { b, x } => s.with_flags(
            Flags { z: !bit_of(s.r8(x), b), n: false, h: true, c: s.regs.f.c },
        ),
        PrefixOpcode::ResBR { b, x } => s.set_r8(x, s.r8(x) & !(1u8 << b)),
        PrefixOpcode::SetBR { b, x } => s.set_r8(x, s.r8(x) | (1u8 << b)),
        PrefixOpcode::RlcR { x } | PrefixOpcode::RrcR { x } | PrefixOpcode::RlR { x }
        | PrefixOpcode::RrR { x } | PrefixOpcode::SlaR { x } | PrefixOpcode::SraR { x }
        | PrefixOpcode::SwapR { x } | PrefixOpcode::SrlR { x } => {
            let (r, c) = shift_result(op, s.r8(x), s.regs.f.c);
            s.set_r8(x, r).with_flags(Flags { z: r == 0, n: false, h: false, c })
        },
    }
}

/// What an opcode does to the CPU (STOP, which is not implemented, does
/// nothing here).
pub open spec fn execute_spec(s: CpuModel, op: Opcode) -> CpuModel {
    let pc = s.regs.pc;
    let f = s.regs.f;
    let a = s.regs.a;
    match op {
        Opcode::Nop => s.next_pc(1),
        Opcode::LdRrNn { x } => s.with_regs(s.regs.with_r16(x, s.imm16())).next_pc(3),
        Opcode::LdMemA { x } => s.write(s.mem_addr(x), a).mem_addr_step(x).next_pc(1),
        Opcode::LdAMem { x } => s.with_a(s.read(s.mem_addr(x))).mem_addr_step(x).next_pc(1),
        Opcode::LdNnSp => {
            let d = s.imm16();
            s.write(d, lo_byte(s.regs.sp)).write(add16(d, 1), hi_byte(s.regs.sp)).next_pc(3)
        },
        Opcode::IncRr { x } => s.with_regs(s.regs.with_r16(x, add16(s.regs.get_r16(x), 1))).next_pc(
            1,
        ),
        Opcode::DecRr { x } => s.with_regs(s.regs.with_r16(x, add16(s.regs.get_r16(x), -1))).next_pc(
            1,
        ),
        Opcode::AddHlRr { x } => {
            let hl = s.regs.hl_spec();
            let v = s.regs.get_r16(x);
            s.with_regs(s.regs.with_r16(R16::Hl, add16(hl, v as int))).with_flags(
                Flags { z: f.z, n: false, h: hl % 4096 + v % 4096 > 4095, c: hl + v > 0xFFFF },
            ).next_pc(1)
        },
        Opcode::IncR { x } => {
            let r = wrap8(s.r8(x) + 1);
            s.set_r8(x, r).with_flags(Flags { z: r == 0, n: false, h: r % 16 == 0, c: f.c }).next_pc(1)
        },
        Opcode::DecR { x } => {
            let v = s.r8(x);
            let r = wrap8(v - 1);
            s.set_r8(x, r).with_flags(Flags { z: r == 0, n: true, h: v % 16 == 0, c: f.c }).next_pc(1)
        },
        Opcode::LdRN { x } => s.set_r8(x, s.imm8()).next_pc(2),
        Opcode::Rlca => s.with_a(rlc(a).0).with_flags(
            Flags { z: false, n: false, h: false, c: rlc(a).1 },
        ).next_pc(1),
        Opcode::Rrca => s.with_a(rrc(a).0).with_flags(
            Flags { z: false, n: false, h: false, c: rrc(a).1 },
        ).next_pc(1),
        Opcode::Rla => s.with_a(rl(a, f.c).0).with_flags(
            Flags { z: false, n: false, h: false, c: rl(a, f.c).1 },
        ).next_pc(1),
        Opcode::Rra => s.with_a(rr(a, f.c).0).with_flags(
            Flags { z: false, n: false, h: false, c: rr(a, f.c).1 },
        ).next_pc(1),
        Opcode::Daa => s.with_a(daa(a, f).0).with_flags(daa(a, f).1).next_pc(1),
        Opcode::Cpl => s.with_a((255 - a) as u8).with_flags(
            Flags { z: f.z, n: true, h: true, c: f.c },
        ).next_pc(1),
        Opcode::Scf => s.with_flags(Flags { z: f.z, n: false, h: false, c: true }).next_pc(1),
        Opcode::Ccf => s.with_flags(Flags { z: f.z, n: false, h: false, c: !f.c }).next_pc(1),
        Opcode::JrE => s.with_pc(add16(pc, signed8(s.imm8()) + 2)),
        Opcode::JrCcE { c } => if s.condition(c) {
            s.with_pc(add16(pc, signed8(s.imm8()) + 2))
        } else {
            s.next_pc(2)
        },
        Opcode::Stop => s,
        Opcode::LdRR { x, y } => s.set_r8(x, s.r8(y)).next_pc(1),
        Opcode::Halt => CpuModel { halted: true, ..s.next_pc(1) },
        Opcode::AddR { x } => s.alu_apply(AluKind::Add, s.r8(x)).next_pc(1),
        Opcode::AdcR { x } => s.alu_apply(AluKind::Adc, s.r8(x)).next_pc(1),
        Opcode::SubR { x } => s.alu_apply(AluKind::Sub, s.r8(x)).next_pc(1),
        Opcode::SbcR { x } => s.alu_apply(AluKind::Sbc, s.r8(x)).next_pc(1),
        Opcode::AndR { x } => s.alu_apply(AluKind::And, s.r8(x)).next_pc(1),
        Opcode::XorR { x } => s.alu_apply(AluKind::Xor, s.r8(x)).next_pc(1),
        Opcode::OrR { x } => s.alu_apply(AluKind::Or, s.r8(x)).next_pc(1),
        Opcode::CpR { x } => s.alu_apply(AluKind::Cp, s.r8(x)).next_pc(1),
        Opcode::AddN => s.alu_apply(AluKind::Add, s.imm8()).next_pc(2),
        Opcode::AdcN => s.alu_apply(AluKind::Adc, s.imm8()).next_pc(2),
        Opcode::SubN => s.alu_apply(AluKind::Sub, s.imm8()).next_pc(2),
        Opcode::SbcN => s.alu_apply(AluKind::Sbc, s.imm8()).next_pc(2),
        Opcode::AndN => s.alu_apply(AluKind::And, s.imm8()).next_pc(2),
        Opcode::XorN => s.alu_apply(AluKind::Xor, s.imm8()).next_pc(2),
        Opcode::OrN => s.alu_apply(AluKind::Or, s.imm8()).next_pc(2),
        Opcode::CpN => s.alu_apply(AluKind::Cp, s.imm8()).next_pc(2),
        Opcode::RetCc { c } => if s.condition(c) {
            s.pop().with_pc(s.top())
        } else {
            s.next_pc(1)
        },
        Opcode::Ret => s.pop().with_pc(s.top()),
        Opcode::Reti => CpuModel { ime: true, ..s.pop().with_pc(s.top()) },
        Opcode::JpCcNn { c } => if s.condition(c) {
            s.with_pc(s.imm16())
        } else {
            s.next_pc(3)
        },
        Opcode::JpNn => s.with_pc(s.imm16()),
        Opcode::JpHl => s.with_pc(s.regs.hl_spec()),
        Opcode::CallCcNn { c } => if s.condition(c) {
            s.push(add16(pc, 3)).with_pc(s.imm16())
        } else {
            s.next_pc(3)
        },
        Opcode::CallNn => s.push(add16(pc, 3)).with_pc(s.imm16()),
        Opcode::RstN { x } => s.push(add16(pc, 1)).with_pc((x * 8) as u16),
        Opcode::PopRr { x } => {
            let p = s.pop();
            p.with_regs(p.regs.with_r16_stack(x, s.top())).next_pc(1)
        },
        Opcode::PushRr { x } => s.push(s.regs.get_r16_stack(x)).next_pc(1),
        Opcode::Prefix => prefix_effect(s, PrefixOpcode::decoded(s.imm8())).next_pc(2),
        Opcode::LdhCA => s.write(word(s.regs.c, 0xFF), a).next_pc(1),
        Opcode::LdhNA => s.write(word(s.imm8(), 0xFF), a).next_pc(2),
        Opcode::LdNnA => s.write(s.imm16(), a).next_pc(3),
        Opcode::LdhAC => s.with_a(s.read(word(s.regs.c, 0xFF))).next_pc(1),
        Opcode::LdhAN => s.with_a(s.read(word(s.imm8(), 0xFF))).next_pc(2),
        Opcode::LdANn => s.with_a(s.read(s.imm16())).next_pc(3),
        Opcode::AddSpE => s.with_sp(s.sp_plus(s.imm8()).0).with_flags(s.sp_plus(s.imm8()).1).next_pc(
            2,
        ),
        Opcode::LdHlSpPlusE => s.with_regs(s.regs.with_r16(R16::Hl, s.sp_plus(s.imm8()).0)).with_flags(
            s.sp_plus(s.imm8()).1,
        ).next_pc(2),
        Opcode::LdSpHl => s.with_sp(s.regs.hl_spec()).next_pc(1),
        Opcode::Di => CpuModel { ime: false, ..s.next_pc(1) },
        Opcode::Ei => CpuModel { ime: true, ..s.next_pc(1) },
    }
}

/// The M-cycles a prefixed opcode takes, counting the prefix byte.
pub open spec fn prefix_m_cycles(op: PrefixOpcode) -> nat {
    match op {
        PrefixOpcode::BitBR { x, .. } => 2 + hl_access(x),
        PrefixOpcode::ResBR { x, .. } | PrefixOpcode::SetBR { x, .. } => 2 + 2 * hl_access(x),
        PrefixOpcode::RlcR { x } | PrefixOpcode::RrcR { x } | PrefixOpcode::RlR { x }
        | PrefixOpcode::RrR { x } | PrefixOpcode::SlaR { x } | PrefixOpcode::SraR { x }
        | PrefixOpcode::SwapR { x } | PrefixOpcode::SrlR { x } => 2 + 2 * hl_access(x),
    }
}

/// The M-cycles an opcode takes on the hardware: one per memory access
/// and internal step, so (HL) operands cost one more per access and taken
/// branches cost more than untaken ones.
pub open spec fn instruction_m_cycles(s: CpuModel, op: Opcode) -> nat {
    match op {
        Opcode::JpCcNn { c } => if s.condition(c) { 4 } else { 3 },
        Opcode::JrCcE { c } => if s.condition(c) { 3 } else { 2 },
        Opcode::RetCc { c } => if s.condition(c) { 5 } else { 2 },
        Opcode::CallCcNn { c } => if s.condition(c) { 6 } else { 3 },
        Opcode::CallNn => 6,
        Opcode::LdRN { x } => 2 + hl_access(x),
        Opcode::LdhNA => 3,
        Opcode::LdNnA => 4,
        Opcode::LdhAC => 2,
        Opcode::LdhAN => 3,
        Opcode::LdANn => 4,
        Opcode::Prefix => prefix_m_cycles(PrefixOpcode::decoded(s.imm8())),
        Opcode::LdRR { x, y } => 1 + hl_access(x) + hl_access(y),
        Opcode::IncR { x } | Opcode::DecR { x } => 1 + 2 * hl_access(x),
        Opcode::AddR { x } | Opcode::AdcR { x } | Opcode::SubR { x } | Opcode::SbcR { x }
        | Opcode::AndR { x } | Opcode::XorR { x } | Opcode::OrR { x } | Opcode::CpR { x } => 1
            + hl_access(x),
        _ => base_m_cycles(op) as nat,
    }
}

/// The interrupts both enabled (IE) and requested (IF).
pub open spec fn pending(s: CpuModel) -> u8 {
    s.read(IE) & s.read(IF) & 0x1F
}

/// The interrupt served first among those pending: the lowest bit
/// (0 VBlank, 1 LCD, 2 timer, 3 serial, 4 joypad).
pub open spec fn first_pending(t: u8) -> u8 {
    if t & 0x01 != 0 {
        0
    } else if t & 0x02 != 0 {
        1
    } else if t & 0x04 != 0 {
        2
    } else if t & 0x08 != 0 {
        3
    } else {
        4
    }
}

/// The CPU after checking for interrupts: a pending interrupt ends HALT; if
/// interrupts are enabled it is also served: IME is cleared, its IF bit is
/// cleared, PC is pushed and execution continues at 0x40 + 8 * n.
pub open spec fn interrupt_spec(s: CpuModel) -> CpuModel {
    let t = pending(s);
    if t == 0 {
        s
    } else if !s.ime {
        CpuModel { halted: false, ..s }
    } else {
        let n = first_pending(t);
        let cleared = CpuModel { halted: false, ime: false, ..s }.write(IF, s.read(IF) & !(1u8 << n));
        cleared.push(s.regs.pc).with_pc((0x40 + 8 * n) as u16)
    }
}

/// The T-cycles that checking for interrupts takes: a halted CPU sleeps
/// until the next interrupt is due and then one more M-cycle; serving an
/// interrupt takes 5 M-cycles.
pub open spec fn interrupt_t_cycles(s: CpuModel, clock: u64, next_interrupt: u64) -> nat {
    let sleep: nat = if s.halted {
        let wait: nat = if next_interrupt > clock { (next_interrupt - clock) as nat } else { 0 };
        4 * (wait / 4) + 4
    } else {
        0
    };
    let serve: nat = if pending(s) != 0 && s.ime { 20 } else { 0 };
    sleep + serve
}

/// A store changes the byte it stores to and, when it unmaps the boot ROM,
/// the 256 bytes under it; nothing else of memory.
pub proof fn lemma_write(s: CpuModel, addr: u16, v: u8)
    requires
        s.mem.len() == 0x10000,
    ensures
        s.write(addr, v).mem.len() == 0x10000,
        s.write(addr, v).mem[addr as int] == v,
        forall|i: int|
            0x100 <= i < 0x10000 && i != addr ==> #[trigger] s.write(addr, v).mem[i] == s.mem[i],
        !(addr == BANK && s.boot_rom_mounted) ==> s.write(addr, v).mem == s.mem.update(
            addr as int,
            v,
        ),
        addr == BANK && s.boot_rom_mounted ==> s.write(addr, v).mem == unmapped(
            s.mem,
            s.under_boot_rom,
        ).update(addr as int, v),
{
    reveal(stored);
    lemma_unmapped(s.mem, s.under_boot_rom);
}

/// Pushing a word and reading the top of the stack gives the word back.
proof fn lemma_top_after_push(s: CpuModel, v: u16)
    requires
        s.mem.len() == 0x10000,
    ensures
        s.push(v).top() == v,
        s.push(v).regs.sp == add16(s.regs.sp, -2),
        s.push(v).pop().regs.sp == s.regs.sp,
{
    let sp = add16(s.regs.sp, -2);
    assert(add16(sp, 1) != sp);
    let s1 = s.with_sp(sp);
    lemma_write(s1, sp, lo_byte(v));
    lemma_write(s1.write(sp, lo_byte(v)), add16(sp, 1), hi_byte(v));
    if add16(sp, 1) == BANK || sp == BANK {
        assert(sp >= 0x100);
    } else {
        assert(s.push(v).mem[sp as int] == lo_byte(v));
    }
    lemma_word_bytes(v, 0, 0);
}

proof fn lemma_push_unfold(s: CpuModel, x: R16Stack)
    ensures
        execute_spec(s, Opcode::PushRr { x }) == s.push(s.regs.get_r16_stack(x)).next_pc(1),
{
}

proof fn lemma_pop_unfold(s: CpuModel, x: R16Stack)
    ensures
        execute_spec(s, Opcode::PopRr { x }).regs == (Registers {
            pc: add16(s.regs.pc, 1),
            ..s.pop().regs.with_r16_stack(x, s.top())
        }),
{
}

/// PUSH rr followed by POP rr leaves every register as it was, but for PC,
/// which moved past both.
pub proof fn lemma_push_pop(s: CpuModel, x: R16Stack)
    requires
        s.mem.len() == 0x10000,
    ensures
        execute_spec(execute_spec(s, Opcode::PushRr { x }), Opcode::PopRr { x }).regs == (Registers {
            pc: add16(s.regs.pc, 2),
            ..s.regs
        }),
{
    let s1 = execute_spec(s, Opcode::PushRr { x });
    lemma_push_unfold(s, x);
    lemma_pop_unfold(s1, x);
    lemma_push_pop_regs(s, x);
}

proof fn lemma_push_pop_regs(s: CpuModel, x: R16Stack)
    requires
        s.mem.len() == 0x10000,
    ensures
        ({
            let s1 = s.push(s.regs.get_r16_stack(x)).next_pc(1);
            (Registers { pc: add16(s1.regs.pc, 1), ..s1.pop().regs.with_r16_stack(x, s1.top()) })
                == (Registers { pc: add16(s.regs.pc, 2), ..s.regs })
        }),
{
    let v = s.regs.get_r16_stack(x);
    lemma_top_after_push(s, v);
    let s1 = s.push(v).next_pc(1);
    assert(s1.top() == v);
    let p = s1.pop();
    assert(p.regs == Registers { pc: add16(s.regs.pc, 1), ..s.regs });
    match x {
        R16Stack::Bc => lemma_word_bytes(v, s.regs.c, s.regs.b),
        R16Stack::De => lemma_word_bytes(v, s.regs.e, s.regs.d),
        R16Stack::Hl => lemma_word_bytes(v, s.regs.l, s.regs.h),
        R16Stack::Af => {
            lemma_word_bytes(v, s.regs.f.byte(), s.regs.a);
            lemma_flags_byte(s.regs.f, 0);
        },
    }
}

/// CALL nn followed by RET resumes after the CALL with every other register
/// as it was.
pub proof fn lemma_call_ret(s: CpuModel)
    requires
        s.mem.len() == 0x10000,
    ensures
        execute_spec(execute_spec(s, Opcode::CallNn), Opcode::Ret).regs == (Registers {
            pc: add16(s.regs.pc, 3),
            ..s.regs
        }),
{
    lemma_top_after_push(s, add16(s.regs.pc, 3));
}

/// A served interrupt is one that is pending: its bit is set in both IE and
/// IF, and no lower bit is; execution continues at its handler.
pub proof fn lemma_interrupt_served(s: CpuModel)
    requires
        s.ime,
        pending(s) != 0,
    ensures
        ({
            let n = first_pending(pending(s));
            &&& n < 5
            &&& pending(s) & (1u8 << n) != 0
            &&& forall|k: u8| k < n ==> pending(s) & (1u8 << k) == 0
            &&& interrupt_spec(s).regs.pc == 0x40 + 8 * n
            &&& !interrupt_spec(s).ime
            &&& !interrupt_spec(s).halted
        }),
{
    let t = pending(s);
    assert(t & 0x01 != 0 ==> t & (1u8 << 0u8) != 0) by (bit_vector);
    assert(t & 0x01 == 0 && t & 0x02 != 0 ==> t & (1u8 << 1u8) != 0 && t & (1u8 << 0u8) == 0)
        by (bit_vector);
    assert(t & 0x01 == 0 && t & 0x02 == 0 && t & 0x04 != 0 ==> t & (1u8 << 2u8) != 0 && t & (1u8
        << 0u8) == 0 && t & (1u8 << 1u8) == 0) by (bit_vector);
    assert(t & 0x01 == 0 && t & 0x02 == 0 && t & 0x04 == 0 && t & 0x08 != 0 ==> t & (1u8 << 3u8)
        != 0 && t & (1u8 << 0u8) == 0 && t & (1u8 << 1u8) == 0 && t & (1u8 << 2u8) == 0)
        by (bit_vector);
    let ie = s.read(IE);
    let fl = s.read(IF);
    assert(t == ie & fl & 0x1F && t != 0 && t & 0x01 == 0 && t & 0x02 == 0 && t & 0x04 == 0 && t
        & 0x08 == 0 ==> t & (1u8 << 4u8) != 0 && t & (1u8 << 0u8) == 0 && t & (1u8 << 1u8) == 0 && t
        & (1u8 << 2u8) == 0 && t & (1u8 << 3u8) == 0) by (bit_vector);
}

/// A halted CPU with no interrupt pending stays halted and unchanged.
pub proof fn lemma_halt_waits(s: CpuModel)
    requires
        s.halted,
        pending(s) == 0,
    ensures
        interrupt_spec(s) == s,
{
}

} // verus!
