//! 8-bit increments and decrements, the ALU operations on A, the rotates of
//! A, decimal adjust, the flag operations and the SP-relative additions.
use vstd::prelude::*;
use crate::interpreter::cpu::alu::{
    alu_op, decimal_adjust, rotate_left, rotate_left_carry, rotate_right, rotate_right_carry,
    sp_plus_e,
};
use crate::interpreter::cpu::isa::{execute_spec, hl_access, wrap8, AluKind};
use crate::interpreter::cpu::opcodes::Opcode;
use crate::interpreter::cpu::parameters::{R16, R8};
use crate::interpreter::cpu::registers::Flags;
use crate::interpreter::cpu::{inline_m_cycles, Cpu};

verus! {

pub(super) open spec fn is_arith_op(op: Opcode) -> bool {
    op is IncR || op is DecR || op is Rlca || op is Rrca || op is Rla || op is Rra || op is Daa
        || op is Cpl || op is Scf || op is Ccf || op is AddR || op is AdcR || op is SubR || op is SbcR
        || op is AndR || op is XorR || op is OrR || op is CpR || op is AddN || op is AdcN || op is SubN
        || op is SbcN || op is AndN || op is XorN || op is OrN || op is CpN || op is AddSpE
        || op is LdHlSpPlusE
}

/// The ALU operation of an `op r` or `op n` opcode.
pub(super) open spec fn alu_kind(op: Opcode) -> AluKind {
    match op {
        Opcode::AddR { .. } | Opcode::AddN => AluKind::Add,
        Opcode::AdcR { .. } | Opcode::AdcN => AluKind::Adc,
        Opcode::SubR { .. } | Opcode::SubN => AluKind::Sub,
        Opcode::SbcR { .. } | Opcode::SbcN => AluKind::Sbc,
        Opcode::AndR { .. } | Opcode::AndN => AluKind::And,
        Opcode::XorR { .. } | Opcode::XorN => AluKind::Xor,
        Opcode::OrR { .. } | Opcode::OrN => AluKind::Or,
        _ => AluKind::Cp,
    }
}

impl Cpu {
    fn inc_r(&mut self, x: R8)
        requires
            old(self).wf(),
            old(self).room(4 * (2 * hl_access(x))),
        ensures
            final(self).wf(),
            final(self).state() == execute_spec(old(self).state(), Opcode::IncR { x }),
            final(self).ticked(old(self), 4 * (2 * hl_access(x))),
    {
        let r8 = self.r8(x);
        let result = r8.wrapping_add(1);
        self.set_r8(x, result);
        self.registers.f = Flags {
            z: result == 0,
            n: false,
            h: result % 16 == 0,
            c: self.registers.f.c,
        };
        self.advance_pc(1);
    }

    fn dec_r(&mut self, x: R8)
        requires
            old(self).wf(),
            old(self).room(4 * (2 * hl_access(x))),
        ensures
            final(self).wf(),
            final(self).state() == execute_spec(old(self).state(), Opcode::DecR { x }),
            final(self).ticked(old(self), 4 * (2 * hl_access(x))),
    {
        let r8 = self.r8(x);
        let result = r8.wrapping_sub(1);
        assert(result == wrap8(r8 - 1));
        self.set_r8(x, result);
        self.registers.f = Flags { z: result == 0, n: true, h: r8 % 16 == 0, c: self.registers.f.c };
        self.advance_pc(1);
    }

    fn apply_alu(&mut self, kind: AluKind, value: u8)
        ensures
            final(self).state() == old(self).state().alu_apply(kind, value),
            final(self).memory == old(self).memory,
    {
        let (result, flags) = alu_op(kind, self.registers.a, value, self.registers.f);
        self.registers.a = result;
        self.registers.f = flags;
    }

    /// `op A, r`: an ALU operation with a register or (HL).
    fn alu_r(&mut self, kind: AluKind, x: R8)
        requires
            old(self).wf(),
            old(self).room(4 * hl_access(x)),
        ensures
            final(self).wf(),
            final(self).state() == old(self).state().alu_apply(kind, old(self).state().r8(x)).next_pc(
                1,
            ),
            final(self).ticked(old(self), 4 * hl_access(x)),
    {
        let value = self.r8(x);
        self.apply_alu(kind, value);
        self.advance_pc(1);
    }

    /// `op A, n`: an ALU operation with the byte after the opcode.
    fn alu_n(&mut self, kind: AluKind)
        requires
            old(self).wf(),
        ensures
            final(self).wf(),
            final(self).state() == old(self).state().alu_apply(kind, old(self).state().imm8()).next_pc(
                2,
            ),
            final(self).ticked(old(self), 0),
    {
        let next_byte = self.imm8();
        self.apply_alu(kind, next_byte);
        self.advance_pc(2);
    }

    /// RLCA, RRCA, RLA and RRA: A takes `result`, C takes `carry`, and Z, N
    /// and H are cleared.
    fn rotate_a(&mut self, result: u8, carry: bool)
        ensures
            final(self).state() == old(self).state().with_a(result).with_flags(
                Flags { z: false, n: false, h: false, c: carry },
            ).next_pc(1),
            final(self).memory == old(self).memory,
    {
        self.registers.a = result;
        self.registers.f = Flags { z: false, n: false, h: false, c: carry };
        self.advance_pc(1);
    }

    fn daa(&mut self)
        ensures
            final(self).state() == execute_spec(old(self).state(), Opcode::Daa),
            final(self).memory == old(self).memory,
    {
        let (result, flags) = decimal_adjust(self.registers.a, self.registers.f);
        self.registers.a = result;
        self.registers.f = flags;
        self.advance_pc(1);
    }

    fn cpl(&mut self)
        ensures
            final(self).state() == execute_spec(old(self).state(), Opcode::Cpl),
            final(self).memory == old(self).memory,
    {
        let flipped = 255 - self.registers.a;
        self.registers.a = flipped;
        self.registers.f = Flags { z: self.registers.f.z, n: true, h: true, c: self.registers.f.c };
        self.advance_pc(1);
    }

    fn set_carry(&mut self, carry: bool)
        ensures
            final(self).state() == old(self).state().with_flags(
                Flags { z: old(self).registers.f.z, n: false, h: false, c: carry },
            ).next_pc(1),
            final(self).memory == old(self).memory,
    {
        self.registers.f = Flags { z: self.registers.f.z, n: false, h: false, c: carry };
        self.advance_pc(1);
    }

    fn add_sp_e(&mut self)
        requires
            old(self).wf(),
        ensures
            final(self).wf(),
            final(self).state() == execute_spec(old(self).state(), Opcode::AddSpE),
            final(self).ticked(old(self), 0),
    {
        let next_byte = self.imm8();
        let (result, flags) = sp_plus_e(self.registers.sp, next_byte);
        self.registers.sp = result;
        self.registers.f = flags;
        self.advance_pc(2);
    }

    fn ld_hl_sp_plus_e(&mut self)
        requires
            old(self).wf(),
        ensures
            final(self).wf(),
            final(self).state() == execute_spec(old(self).state(), Opcode::LdHlSpPlusE),
            final(self).ticked(old(self), 0),
    {
        let next_byte = self.imm8();
        let (result, flags) = sp_plus_e(self.registers.sp, next_byte);
        self.registers.set_r16(R16::Hl, result);
        self.registers.f = flags;
        self.advance_pc(2);
    }

    pub(super) fn execute_arith(&mut self, opcode: Opcode)
        requires
            old(self).wf(),
            old(self).room(4 * inline_m_cycles(old(self).state(), opcode)),
            is_arith_op(opcode),
        ensures
            final(self).wf(),
            final(self).state() == execute_spec(old(self).state(), opcode),
            final(self).ticked(old(self), 4 * inline_m_cycles(old(self).state(), opcode)),
    {
        let a = self.registers.a;
        let carry = self.registers.f.c;
        match opcode {
            Opcode::IncR { x } => self.inc_r(x),
            Opcode::DecR { x } => self.dec_r(x),
            Opcode::Rlca => {
                let (result, c) = rotate_left(a);
                self.rotate_a(result, c);
            },
            Opcode::Rrca => {
                let (result, c) = rotate_right(a);
                self.rotate_a(result, c);
            },
            Opcode::Rla => {
                let (result, c) = rotate_left_carry(a, carry);
                self.rotate_a(result, c);
            },
            Opcode::Rra => {
                let (result, c) = rotate_right_carry(a, carry);
                self.rotate_a(result, c);
            },
            Opcode::Daa => self.daa(),
            Opcode::Cpl => self.cpl(),
            Opcode::Scf => self.set_carry(true),
            Opcode::Ccf => self.set_carry(!carry),
            Opcode::AddR { x } => self.alu_r(AluKind::Add, x),
            Opcode::AdcR { x } => self.alu_r(AluKind::Adc, x),
            Opcode::SubR { x } => self.alu_r(AluKind::Sub, x),
            Opcode::SbcR { x } => self.alu_r(AluKind::Sbc, x),
            Opcode::AndR { x } => self.alu_r(AluKind::And, x),
            Opcode::XorR { x } => self.alu_r(AluKind::Xor, x),
            Opcode::OrR { x } => self.alu_r(AluKind::Or, x),
            Opcode::CpR { x } => self.alu_r(AluKind::Cp, x),
            Opcode::AddN => self.alu_n(AluKind::Add),
            Opcode::AdcN => self.alu_n(AluKind::Adc),
            Opcode::SubN => self.alu_n(AluKind::Sub),
            Opcode::SbcN => self.alu_n(AluKind::Sbc),
            Opcode::AndN => self.alu_n(AluKind::And),
            Opcode::XorN => self.alu_n(AluKind::Xor),
            Opcode::OrN => self.alu_n(AluKind::Or),
            Opcode::CpN => self.alu_n(AluKind::Cp),
            Opcode::AddSpE => self.add_sp_e(),
            Opcode::LdHlSpPlusE => self.ld_hl_sp_plus_e(),
            _ => {},
        }
    }
}

} // verus!
