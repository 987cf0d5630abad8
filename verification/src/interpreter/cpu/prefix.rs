//! The opcodes behind the 0xCB prefix: rotates and shifts, and the single
//! bit test, reset and set.
use vstd::prelude::*;
use crate::interpreter::cpu::alu::{
    rotate_left, rotate_left_carry, rotate_right, rotate_right_carry, shift_left,
    shift_right_arithmetic, shift_right_logical, swap_nibbles,
};
use crate::interpreter::cpu::isa::{
    execute_spec, hl_access, prefix_effect, shift_result,
};
use crate::interpreter::cpu::opcodes::{Opcode, PrefixOpcode};
use crate::interpreter::cpu::parameters::R8;
use crate::interpreter::cpu::registers::Flags;
use crate::interpreter::cpu::{inline_m_cycles, Cpu};

verus! {

/// The rotate or shift of a prefixed opcode, on a value and the carry.
fn shift_op(op: PrefixOpcode, value: u8, carry: bool) -> (r: (u8, bool))
    ensures
        r == shift_result(op, value, carry),
{
    match op {
        PrefixOpcode::RlcR { .. } => rotate_left(value),
        PrefixOpcode::RrcR { .. } => rotate_right(value),
        PrefixOpcode::RlR { .. } => rotate_left_carry(value, carry),
        PrefixOpcode::RrR { .. } => rotate_right_carry(value, carry),
        PrefixOpcode::SlaR { .. } => shift_left(value),
        PrefixOpcode::SraR { .. } => shift_right_arithmetic(value),
        PrefixOpcode::SwapR { .. } => swap_nibbles(value),
        _ => shift_right_logical(value),
    }
}

/// The operand of a rotate or shift.
spec fn shift_operand(op: PrefixOpcode) -> R8 {
    match op {
        PrefixOpcode::RlcR { x } | PrefixOpcode::RrcR { x } | PrefixOpcode::RlR { x }
        | PrefixOpcode::RrR { x } | PrefixOpcode::SlaR { x } | PrefixOpcode::SraR { x }
        | PrefixOpcode::SwapR { x } | PrefixOpcode::SrlR { x } => x,
        _ => R8::B,
    }
}

impl Cpu {
    fn bit_b_r(&mut self, b: u8, x: R8)
        requires
            old(self).wf(),
            old(self).room(4 * hl_access(x)),
            b < 8,
        ensures
            final(self).wf(),
            final(self).state() == prefix_effect(old(self).state(), PrefixOpcode::BitBR { b, x }),
            final(self).ticked(old(self), 4 * hl_access(x)),
    {
        let value = self.r8(x);
        let nth_bit = (value >> b) & 1;
        self.registers.f = Flags { z: nth_bit != 1, n: false, h: true, c: self.registers.f.c };
    }

    fn res_b_r(&mut self, b: u8, x: R8)
        requires
            old(self).wf(),
            old(self).room(8 * hl_access(x)),
            b < 8,
        ensures
            final(self).wf(),
            final(self).state() == prefix_effect(old(self).state(), PrefixOpcode::ResBR { b, x }),
            final(self).ticked(old(self), 8 * hl_access(x)),
    {
        let value = self.r8(x);
        let mask = !(1u8 << b);
        self.set_r8(x, value & mask);
    }

    fn set_b_r(&mut self, b: u8, x: R8)
        requires
            old(self).wf(),
            old(self).room(8 * hl_access(x)),
            b < 8,
        ensures
            final(self).wf(),
            final(self).state() == prefix_effect(old(self).state(), PrefixOpcode::SetBR { b, x }),
            final(self).ticked(old(self), 8 * hl_access(x)),
    {
        let value = self.r8(x);
        let bit = 1u8 << b;
        self.set_r8(x, value | bit);
    }

    /// A rotate or shift of register or (HL) `x`.
    fn shift_r(&mut self, op: PrefixOpcode, x: R8)
        requires
            old(self).wf(),
            old(self).room(8 * hl_access(x)),
            !(op is BitBR || op is ResBR || op is SetBR),
            shift_operand(op) == x,
        ensures
            final(self).wf(),
            final(self).state() == prefix_effect(old(self).state(), op),
            final(self).ticked(old(self), 8 * hl_access(x)),
    {
        let value = self.r8(x);
        let (shifted, carry) = shift_op(op, value, self.registers.f.c);
        self.set_r8(x, shifted);
        self.registers.f = Flags { z: shifted == 0, n: false, h: false, c: carry };
    }

    /// The opcode fetch and the fetch of the second byte take one M-cycle
    /// each; (HL) operands add one per access.
    pub(super) fn execute_prefix(&mut self)
        requires
            old(self).wf(),
            old(self).room(4 * inline_m_cycles(old(self).state(), Opcode::Prefix)),
        ensures
            final(self).wf(),
            final(self).state() == execute_spec(old(self).state(), Opcode::Prefix),
            final(self).ticked(old(self), 4 * inline_m_cycles(old(self).state(), Opcode::Prefix)),
    {
        // Decoding the 0xCB byte took one M-cycle.
        self.tick(1);
        let second_byte = self.imm8();
        let prefix_opcode = PrefixOpcode::decode(second_byte);
        // Decoding the next byte took another.
        self.tick(1);
        match prefix_opcode {
            PrefixOpcode::BitBR { b, x } => self.bit_b_r(b, x),
            PrefixOpcode::ResBR { b, x } => self.res_b_r(b, x),
            PrefixOpcode::SetBR { b, x } => self.set_b_r(b, x),
            PrefixOpcode::RlcR { x } | PrefixOpcode::RrcR { x } | PrefixOpcode::RlR { x }
            | PrefixOpcode::RrR { x } | PrefixOpcode::SlaR { x } | PrefixOpcode::SraR { x }
            | PrefixOpcode::SwapR { x } | PrefixOpcode::SrlR { x } => self.shift_r(prefix_opcode, x),
        }
        self.advance_pc(2);
    }
}

} // verus!
