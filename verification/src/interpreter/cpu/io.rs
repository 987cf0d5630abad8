//! Loads between A and the I/O page (0xFF00 + n) or an absolute address.
use vstd::prelude::*;
use crate::interpreter::cpu::isa::execute_spec;
use crate::interpreter::cpu::opcodes::Opcode;
use crate::interpreter::cpu::registers::to_word;
use crate::interpreter::cpu::{inline_m_cycles, Cpu};

verus! {

pub(super) open spec fn is_io_op(op: Opcode) -> bool {
    op is LdhCA || op is LdhNA || op is LdNnA || op is LdhAC || op is LdhAN || op is LdANn
}

impl Cpu {
    fn ldh_c_a(&mut self)
        requires
            old(self).wf(),
        ensures
            final(self).wf(),
            final(self).state() == execute_spec(old(self).state(), Opcode::LdhCA),
            final(self).ticked(old(self), 0),
    {
        let destination = to_word(self.registers.c, 0xFF);
        self.write(destination, self.registers.a);
        self.advance_pc(1);
    }

    fn ldh_n_a(&mut self)
        requires
            old(self).wf(),
            old(self).room(12),
        ensures
            final(self).wf(),
            final(self).state() == execute_spec(old(self).state(), Opcode::LdhNA),
            final(self).ticked(old(self), 12),
    {
        self.tick(1);
        let next_byte = self.imm8();
        self.tick(1);
        let destination = to_word(next_byte, 0xFF);
        self.write(destination, self.registers.a);
        self.tick(1);
        self.advance_pc(2);
    }

    fn ld_nn_a(&mut self)
        requires
            old(self).wf(),
            old(self).room(16),
        ensures
            final(self).wf(),
            final(self).state() == execute_spec(old(self).state(), Opcode::LdNnA),
            final(self).ticked(old(self), 16),
    {
        let pc = self.registers.pc;
        self.tick(1);
        let first_byte = self.read(pc.wrapping_add(1));
        self.tick(1);
        let second_byte = self.read(pc.wrapping_add(2));
        self.tick(1);
        let address = to_word(first_byte, second_byte);
        self.write(address, self.registers.a);
        self.tick(1);
        self.advance_pc(3);
    }

    fn ldh_a_c(&mut self)
        requires
            old(self).wf(),
            old(self).room(8),
        ensures
            final(self).wf(),
            final(self).state() == execute_spec(old(self).state(), Opcode::LdhAC),
            final(self).ticked(old(self), 8),
    {
        self.tick(1);
        let address = to_word(self.registers.c, 0xFF);
        let value = self.read(address);
        self.tick(1);
        self.registers.a = value;
        self.advance_pc(1);
    }

    fn ldh_a_n(&mut self)
        requires
            old(self).wf(),
            old(self).room(12),
        ensures
            final(self).wf(),
            final(self).state() == execute_spec(old(self).state(), Opcode::LdhAN),
            final(self).ticked(old(self), 12),
    {
        self.tick(1);
        let next_byte = self.imm8();
        self.tick(1);
        let address = to_word(next_byte, 0xFF);
        let value = self.read(address);
        self.registers.a = value;
        self.tick(1);
        self.advance_pc(2);
    }

    fn ld_a_nn(&mut self)
        requires
            old(self).wf(),
            old(self).room(16),
        ensures
            final(self).wf(),
            final(self).state() == execute_spec(old(self).state(), Opcode::LdANn),
            final(self).ticked(old(self), 16),
    {
        let pc = self.registers.pc;
        self.tick(1);
        let first_byte = self.read(pc.wrapping_add(1));
        self.tick(1);
        let second_byte = self.read(pc.wrapping_add(2));
        self.tick(1);
        let value = self.read(to_word(first_byte, second_byte));
        self.registers.a = value;
        self.tick(1);
        self.advance_pc(3);
    }

    pub(super) fn execute_io(&mut self, opcode: Opcode)
        requires
            old(self).wf(),
            is_io_op(opcode),
            old(self).room(4 * inline_m_cycles(old(self).state(), opcode)),
        ensures
            final(self).wf(),
            final(self).state() == execute_spec(old(self).state(), opcode),
            final(self).ticked(old(self), 4 * inline_m_cycles(old(self).state(), opcode)),
    {
        match opcode {
            Opcode::LdhCA => self.ldh_c_a(),
            Opcode::LdhNA => self.ldh_n_a(),
            Opcode::LdNnA => self.ld_nn_a(),
            Opcode::LdhAC => self.ldh_a_c(),
            Opcode::LdhAN => self.ldh_a_n(),
            Opcode::LdANn => self.ld_a_nn(),
            _ => {},
        }
    }
}

} // verus!
