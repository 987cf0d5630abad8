//! Jumps, calls, returns, restarts and the stack operations.
use vstd::prelude::*;
use crate::interpreter::cpu::alu::add_signed;
use crate::interpreter::bus::lemma_unmapped;
use crate::interpreter::cpu::isa::{add16, execute_spec, lemma_write, CpuModel};
use crate::io_regs::BANK;
use crate::interpreter::cpu::opcodes::Opcode;
use crate::interpreter::cpu::parameters::{Condition, R16Stack};
use crate::interpreter::cpu::registers::{hi_byte, high_byte, lo_byte, low_byte, to_word};
use crate::interpreter::cpu::{inline_m_cycles, Cpu};

verus! {

pub(super) open spec fn is_control_op(op: Opcode) -> bool {
    op is JrE || op is JrCcE || op is RetCc || op is Ret || op is Reti || op is JpCcNn || op is JpNn
        || op is JpHl || op is CallCcNn || op is CallNn || op is RstN || op is PopRr || op is PushRr
}

/// Writing the high byte first and then the low byte below it pushes the
/// same word as `push`.
proof fn lemma_push_high_first(s: CpuModel, v: u16)
    requires
        s.mem.len() == 0x10000,
    ensures
        s.with_sp(add16(s.regs.sp, -2)).write(add16(s.regs.sp, -1), hi_byte(v)).write(
            add16(s.regs.sp, -2),
            lo_byte(v),
        ) == s.push(v),
{
    let sp = add16(s.regs.sp, -2);
    let a = add16(s.regs.sp, -1);
    assert(add16(sp, 1) == a);
    assert(a != sp);
    let s0 = s.with_sp(sp);
    let l1 = s0.write(a, hi_byte(v));
    let r1 = s0.write(sp, lo_byte(v));
    lemma_write(s0, a, hi_byte(v));
    lemma_write(l1, sp, lo_byte(v));
    lemma_write(s0, sp, lo_byte(v));
    lemma_write(r1, a, hi_byte(v));
    lemma_unmapped(s0.mem, s0.under_boot_rom);
    if a == BANK && s.boot_rom_mounted {
        assert(sp >= 0x100);
        lemma_unmapped(r1.mem, s0.under_boot_rom);
    } else if sp == BANK && s.boot_rom_mounted {
        assert(a >= 0x100);
        lemma_unmapped(l1.mem, s0.under_boot_rom);
    }
    assert(l1.write(sp, lo_byte(v)).mem =~= r1.write(a, hi_byte(v)).mem);
}

impl Cpu {
    pub(super) fn push_word(&mut self, value: u16)
        requires
            old(self).wf(),
        ensures
            final(self).wf(),
            final(self).state() == old(self).state().push(value),
            final(self).ticked(old(self), 0),
    {
        let sp = self.registers.sp.wrapping_sub(2);
        self.registers.sp = sp;
        // The Game Boy is little-endian: the low byte goes below the high byte.
        self.write(sp, low_byte(value));
        self.write(sp.wrapping_add(1), high_byte(value));
    }

    fn pop_word(&mut self) -> (r: u16)
        requires
            old(self).wf(),
        ensures
            final(self).wf(),
            r == old(self).state().top(),
            final(self).state() == old(self).state().pop(),
            final(self).ticked(old(self), 0),
    {
        let sp = self.registers.sp;
        let value = to_word(self.read(sp), self.read(sp.wrapping_add(1)));
        self.registers.sp = sp.wrapping_add(2);
        value
    }

    fn jr(&mut self, c: Option<Condition>)
        requires
            old(self).wf(),
        ensures
            final(self).wf(),
            final(self).state() == execute_spec(
                old(self).state(),
                match c {
                    Some(c) => Opcode::JrCcE { c },
                    None => Opcode::JrE,
                },
            ),
            final(self).ticked(old(self), 0),
    {
        let pc = self.registers.pc;
        let jump_offset = self.imm8();
        let taken = match c {
            Some(c) => self.check_condition(c),
            None => true,
        };
        if taken {
            self.registers.pc = add_signed(pc, jump_offset, 2);
        } else {
            self.advance_pc(2);
        }
    }

    fn ret(&mut self, c: Option<Condition>)
        requires
            old(self).wf(),
        ensures
            final(self).wf(),
            final(self).state() == execute_spec(
                old(self).state(),
                match c {
                    Some(c) => Opcode::RetCc { c },
                    None => Opcode::Ret,
                },
            ),
            final(self).ticked(old(self), 0),
    {
        let taken = match c {
            Some(c) => self.check_condition(c),
            None => true,
        };
        self.advance_pc(1);
        if taken {
            let destination = self.pop_word();
            self.registers.pc = destination;
        }
    }

    fn jp(&mut self, c: Option<Condition>)
        requires
            old(self).wf(),
        ensures
            final(self).wf(),
            final(self).state() == execute_spec(
                old(self).state(),
                match c {
                    Some(c) => Opcode::JpCcNn { c },
                    None => Opcode::JpNn,
                },
            ),
            final(self).ticked(old(self), 0),
    {
        let destination = self.imm16();
        let taken = match c {
            Some(c) => self.check_condition(c),
            None => true,
        };
        self.advance_pc(3);
        if taken {
            self.registers.pc = destination;
        }
    }

    /// Push a return address the way CALL does: high byte first, one
    /// M-cycle before and after each write.
    fn call_push(&mut self, return_address: u16)
        requires
            old(self).wf(),
            old(self).room(12),
        ensures
            final(self).wf(),
            final(self).state() == old(self).state().push(return_address),
            final(self).ticked(old(self), 12),
    {
        let ghost s = self.state();
        self.tick(1);
        let high_sp = self.registers.sp.wrapping_sub(1);
        self.registers.sp = high_sp;
        self.write(high_sp, high_byte(return_address));
        self.tick(1);
        let low_sp = high_sp.wrapping_sub(1);
        self.registers.sp = low_sp;
        self.write(low_sp, low_byte(return_address));
        self.tick(1);
        proof {
            lemma_push_high_first(s, return_address);
        }
    }

    /// CALL and CALL cc count their own cycles: three to read the opcode
    /// and the address, and three more when the call is taken.
    #[verifier::rlimit(30)]
    fn call(&mut self, c: Option<Condition>)
        requires
            old(self).wf(),
            old(self).room(4 * inline_m_cycles(old(self).state(), match c { Some(c) => Opcode::CallCcNn { c }, None => Opcode::CallNn })),
        ensures
            final(self).wf(),
            final(self).state() == execute_spec(
                old(self).state(),
                match c {
                    Some(c) => Opcode::CallCcNn { c },
                    None => Opcode::CallNn,
                },
            ),
            final(self).ticked(
                old(self),
                4 * inline_m_cycles(
                    old(self).state(),
                    match c {
                        Some(c) => Opcode::CallCcNn { c },
                        None => Opcode::CallNn,
                    },
                ),
            ),
    {
        let pc = self.registers.pc;
        self.tick(1);
        let low_dest = self.read(pc.wrapping_add(1));
        self.tick(1);
        let high_dest = self.read(pc.wrapping_add(2));
        let destination = to_word(low_dest, high_dest);
        self.tick(1);
        let taken = match c {
            Some(c) => self.check_condition(c),
            None => true,
        };
        self.advance_pc(3);
        if taken {
            // Push the address of the next instruction.
            self.call_push(pc.wrapping_add(3));
            self.registers.pc = destination;
        }
    }

    fn rst(&mut self, x: u8)
        requires
            old(self).wf(),
            x < 8,
        ensures
            final(self).wf(),
            final(self).state() == execute_spec(old(self).state(), Opcode::RstN { x }),
            final(self).ticked(old(self), 0),
    {
        let ghost s = self.state();
        let return_address = self.registers.pc.wrapping_add(1);
        self.push_word(return_address);
        // RST's operand is the target divided by 8.
        let destination: u16 = (x as u16) * 8;
        assert(destination == (x * 8) as u16);
        self.registers.pc = destination;
        assert(self.state() == s.push(add16(s.regs.pc, 1)).with_pc((x * 8) as u16));
    }

    fn pop_rr(&mut self, x: R16Stack)
        requires
            old(self).wf(),
        ensures
            final(self).wf(),
            final(self).state() == execute_spec(old(self).state(), Opcode::PopRr { x }),
            final(self).ticked(old(self), 0),
    {
        let value = self.pop_word();
        self.registers.set_r16_stack(x, value);
        self.advance_pc(1);
    }

    fn push_rr(&mut self, x: R16Stack)
        requires
            old(self).wf(),
        ensures
            final(self).wf(),
            final(self).state() == execute_spec(old(self).state(), Opcode::PushRr { x }),
            final(self).ticked(old(self), 0),
    {
        let value = self.registers.r16_stack(x);
        self.push_word(value);
        self.advance_pc(1);
    }

    pub(super) fn execute_control(&mut self, opcode: Opcode)
        requires
            old(self).wf(),
            old(self).room(4 * inline_m_cycles(old(self).state(), opcode)),
            is_control_op(opcode),
            opcode matches Opcode::RstN { x } ==> x < 8,
        ensures
            final(self).wf(),
            final(self).state() == execute_spec(old(self).state(), opcode),
            final(self).ticked(old(self), 4 * inline_m_cycles(old(self).state(), opcode)),
    {
        match opcode {
            Opcode::JrE => self.jr(None),
            Opcode::JrCcE { c } => self.jr(Some(c)),
            Opcode::RetCc { c } => self.ret(Some(c)),
            Opcode::Ret => self.ret(None),
            Opcode::Reti => {
                self.ret(None);
                self.ime = true;
            },
            Opcode::JpCcNn { c } => self.jp(Some(c)),
            Opcode::JpNn => self.jp(None),
            Opcode::JpHl => self.registers.pc = self.registers.hl(),
            Opcode::CallCcNn { c } => self.call(Some(c)),
            Opcode::CallNn => self.call(None),
            Opcode::RstN { x } => self.rst(x),
            Opcode::PopRr { x } => self.pop_rr(x),
            Opcode::PushRr { x } => self.push_rr(x),
            _ => {},
        }
    }
}

} // verus!
