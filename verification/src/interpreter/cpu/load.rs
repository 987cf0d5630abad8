//! Loads, 16-bit increments and additions, HALT and the interrupt enable
//! switches.
use vstd::prelude::*;
use crate::interpreter::cpu::isa::{execute_spec, hl_access};
use crate::interpreter::cpu::opcodes::Opcode;
use crate::interpreter::cpu::parameters::{R16, R16Mem, R8};
use crate::interpreter::cpu::registers::{high_byte, low_byte, Flags};
use crate::interpreter::cpu::{inline_m_cycles, Cpu};

verus! {

pub(super) open spec fn is_load_op(op: Opcode) -> bool {
    op is Nop || op is LdRrNn || op is LdMemA || op is LdAMem || op is LdNnSp || op is IncRr
        || op is DecRr || op is AddHlRr || op is LdRN || op is LdRR || op is Halt || op is LdSpHl
        || op is Di || op is Ei
}

impl Cpu {
    fn ld_rr_nn(&mut self, x: R16)
        requires
            old(self).wf(),
        ensures
            final(self).wf(),
            final(self).state() == execute_spec(old(self).state(), Opcode::LdRrNn { x }),
            final(self).ticked(old(self), 0),
    {
        let next_two_bytes = self.imm16();
        self.registers.set_r16(x, next_two_bytes);
        self.advance_pc(3);
    }

    fn ld_mem_a(&mut self, x: R16Mem)
        requires
            old(self).wf(),
        ensures
            final(self).wf(),
            final(self).state() == execute_spec(old(self).state(), Opcode::LdMemA { x }),
            final(self).ticked(old(self), 0),
    {
        let a = self.registers.a;
        self.set_r16_mem(x, a);
        self.advance_pc(1);
    }

    fn ld_a_mem(&mut self, x: R16Mem)
        requires
            old(self).wf(),
        ensures
            final(self).wf(),
            final(self).state() == execute_spec(old(self).state(), Opcode::LdAMem { x }),
            final(self).ticked(old(self), 0),
    {
        let value = self.r16_mem(x);
        self.registers.a = value;
        self.advance_pc(1);
    }

    fn ld_nn_sp(&mut self)
        requires
            old(self).wf(),
        ensures
            final(self).wf(),
            final(self).state() == execute_spec(old(self).state(), Opcode::LdNnSp),
            final(self).ticked(old(self), 0),
    {
        let sp = self.registers.sp;
        let destination = self.imm16();
        self.write(destination, low_byte(sp));
        self.write(destination.wrapping_add(1), high_byte(sp));
        self.advance_pc(3);
    }

    fn inc_rr(&mut self, x: R16)
        requires
            old(self).wf(),
        ensures
            final(self).wf(),
            final(self).state() == execute_spec(old(self).state(), Opcode::IncRr { x }),
            final(self).ticked(old(self), 0),
    {
        let value = self.registers.r16(x);
        self.registers.set_r16(x, value.wrapping_add(1));
        self.advance_pc(1);
    }

    fn dec_rr(&mut self, x: R16)
        requires
            old(self).wf(),
        ensures
            final(self).wf(),
            final(self).state() == execute_spec(old(self).state(), Opcode::DecRr { x }),
            final(self).ticked(old(self), 0),
    {
        let value = self.registers.r16(x);
        self.registers.set_r16(x, value.wrapping_sub(1));
        self.advance_pc(1);
    }

    fn add_hl_rr(&mut self, x: R16)
        requires
            old(self).wf(),
        ensures
            final(self).wf(),
            final(self).state() == execute_spec(old(self).state(), Opcode::AddHlRr { x }),
            final(self).ticked(old(self), 0),
    {
        let hl = self.registers.hl();
        let r16 = self.registers.r16(x);
        let sum: u32 = hl as u32 + r16 as u32;
        let half_carry = (hl % 0x1000) + (r16 % 0x1000) > 0x0FFF;
        self.registers.set_r16(R16::Hl, (sum % 0x10000) as u16);
        self.registers.f = Flags { z: self.registers.f.z, n: false, h: half_carry, c: sum > 0xFFFF };
        self.advance_pc(1);
    }

    fn ld_r_n(&mut self, x: R8)
        requires
            old(self).wf(),
            old(self).room(4 * (2 + hl_access(x))),
        ensures
            final(self).wf(),
            final(self).state() == execute_spec(old(self).state(), Opcode::LdRN { x }),
            final(self).ticked(old(self), 4 * (2 + hl_access(x))),
    {
        // Counts its own cycles: the opcode fetch, the operand read, and any
        // write to (HL).
        self.tick(1);
        let next_byte = self.imm8();
        self.tick(1);
        self.set_r8(x, next_byte);
        self.advance_pc(2);
    }

    fn ld_r_r(&mut self, dest: R8, src: R8)
        requires
            old(self).wf(),
            old(self).room(4 * (hl_access(dest) + hl_access(src))),
        ensures
            final(self).wf(),
            final(self).state() == execute_spec(old(self).state(), Opcode::LdRR { x: dest, y: src }),
            final(self).ticked(old(self), 4 * (hl_access(dest) + hl_access(src))),
    {
        let value = self.r8(src);
        self.set_r8(dest, value);
        self.advance_pc(1);
    }

    pub(super) fn execute_load(&mut self, opcode: Opcode)
        requires
            old(self).wf(),
            old(self).room(4 * inline_m_cycles(old(self).state(), opcode)),
            is_load_op(opcode),
        ensures
            final(self).wf(),
            final(self).state() == execute_spec(old(self).state(), opcode),
            final(self).ticked(old(self), 4 * inline_m_cycles(old(self).state(), opcode)),
    {
        match opcode {
            Opcode::Nop => self.advance_pc(1),
            Opcode::LdRrNn { x } => self.ld_rr_nn(x),
            Opcode::LdMemA { x } => self.ld_mem_a(x),
            Opcode::LdAMem { x } => self.ld_a_mem(x),
            Opcode::LdNnSp => self.ld_nn_sp(),
            Opcode::IncRr { x } => self.inc_rr(x),
            Opcode::DecRr { x } => self.dec_rr(x),
            Opcode::AddHlRr { x } => self.add_hl_rr(x),
            Opcode::LdRN { x } => self.ld_r_n(x),
            Opcode::LdRR { x: dest, y: src } => self.ld_r_r(dest, src),
            Opcode::Halt => {
                self.advance_pc(1);
                self.halted = true;
            },
            Opcode::LdSpHl => {
                self.registers.sp = self.registers.hl();
                self.advance_pc(1);
            },
            Opcode::Di => {
                self.ime = false;
                self.advance_pc(1);
            },
            Opcode::Ei => {
                self.ime = true;
                self.advance_pc(1);
            },
            _ => {},
        }
    }
}

} // verus!
