//! The SM83 CPU interpreter: fetch, decode and execute, with the cycle
//! timing of each instruction and interrupt dispatch.

pub mod parameters;
pub mod opcodes;
pub mod registers;
pub mod isa;
pub mod alu;
mod load;
mod arith;
mod control;
mod io;
mod prefix;

use vstd::prelude::*;
use crate::hw_constants::{PostBoot, IE};
use crate::io_regs::IF;
use crate::interpreter::bus::{boot_rom_byte, AddressBus, BOOT_ROM_SIZE};
use crate::interpreter::cpu::isa::{
    execute_spec, first_pending, hl_access, instruction_m_cycles, interrupt_spec,
    interrupt_t_cycles, prefix_m_cycles, CpuModel,
};
use crate::interpreter::cpu::opcodes::{
    base_m_cycles, decoded, lemma_encode_decoded, m_cycles, CpuError, Opcode, PrefixOpcode,
};
use crate::interpreter::cpu::parameters::{Condition, R16, R16Mem, R8};
use crate::interpreter::cpu::registers::{post_boot_registers, to_word, Registers};

verus! {

pub struct Cpu {
    pub registers: Registers,
    pub memory: AddressBus,
    /// Interrupt master enable flag.
    pub ime: bool,
    pub halted: bool,
}

/// The M-cycles that `execute_op` counts from the opcode alone: the base
/// length, and the taken or untaken length of the conditional jumps and
/// returns.
spec fn table_m_cycles(s: CpuModel, op: Opcode) -> nat {
    match op {
        Opcode::JpCcNn { c } => if s.condition(c) { 4 } else { 3 },
        Opcode::JrCcE { c } => if s.condition(c) { 3 } else { 2 },
        Opcode::RetCc { c } => if s.condition(c) { 5 } else { 2 },
        _ => base_m_cycles(op) as nat,
    }
}

/// The M-cycles that an instruction counts as it goes: accesses to (HL),
/// and the whole of the opcodes whose base length is 0.
spec fn inline_m_cycles(s: CpuModel, op: Opcode) -> nat {
    match op {
        Opcode::LdRN { x } => 2 + hl_access(x),
        Opcode::CallCcNn { c } => if s.condition(c) { 6 } else { 3 },
        Opcode::CallNn => 6,
        Opcode::LdhNA => 3,
        Opcode::LdNnA => 4,
        Opcode::LdhAC => 2,
        Opcode::LdhAN => 3,
        Opcode::LdANn => 4,
        Opcode::Prefix => prefix_m_cycles(PrefixOpcode::decoded(s.imm8())),
        Opcode::LdRR { x, y } => hl_access(x) + hl_access(y),
        Opcode::IncR { x } | Opcode::DecR { x } => 2 * hl_access(x),
        Opcode::AddR { x } | Opcode::AdcR { x } | Opcode::SubR { x } | Opcode::SbcR { x }
        | Opcode::AndR { x } | Opcode::XorR { x } | Opcode::OrR { x } | Opcode::CpR { x } => hl_access(
            x,
        ),
        _ => 0,
    }
}

proof fn lemma_cycle_split(s: CpuModel, op: Opcode)
    ensures
        table_m_cycles(s, op) + inline_m_cycles(s, op) == instruction_m_cycles(s, op),
{
}

impl Cpu {
    pub open spec fn wf(&self) -> bool {
        self.memory.wf()
    }

    /// The CPU as the instruction semantics see it.
    pub open spec fn state(&self) -> CpuModel {
        CpuModel {
            regs: self.registers,
            mem: self.memory.buffer@,
            ime: self.ime,
            halted: self.halted,
            boot_rom_mounted: self.memory.boot_rom_mounted,
            under_boot_rom: self.memory.under_boot_rom@,
        }
    }

    /// The clock has room for `t` more T-cycles.
    pub open spec fn room(&self, t: nat) -> bool {
        self.memory.clock + t <= u64::MAX
    }

    /// The clock after `t` more T-cycles, with nothing else of the bus changed.
    pub open spec fn ticked(&self, before: &Cpu, t: nat) -> bool {
        &&& self.memory.clock == before.memory.clock + t
        &&& self.memory.next_interrupt == before.memory.next_interrupt
    }

    fn read(&self, addr: u16) -> (r: u8)
        requires
            self.wf(),
        ensures
            r == self.state().read(addr),
    {
        self.memory.read_byte(addr)
    }

    fn write(&mut self, addr: u16, value: u8)
        requires
            old(self).wf(),
        ensures
            final(self).wf(),
            final(self).state() == old(self).state().write(addr, value),
            final(self).ticked(old(self), 0),
    {
        self.memory.write_byte(addr, value);
        proof {
            reveal(crate::interpreter::cpu::isa::stored);
        }
    }

    fn tick(&mut self, m: u16)
        requires
            old(self).room(4 * m as nat),
        ensures
            final(self).state() == old(self).state(),
            final(self).wf() == old(self).wf(),
            final(self).ticked(old(self), 4 * m as nat),
    {
        self.memory.increment_timers(m);
    }

    fn r8(&mut self, r8: R8) -> (v: u8)
        requires
            old(self).wf(),
            old(self).room(4 * hl_access(r8)),
        ensures
            final(self).wf(),
            v == old(self).state().r8(r8),
            final(self).state() == old(self).state(),
            final(self).ticked(old(self), 4 * hl_access(r8)),
    {
        match r8 {
            R8::B => self.registers.b,
            R8::C => self.registers.c,
            R8::D => self.registers.d,
            R8::E => self.registers.e,
            R8::H => self.registers.h,
            R8::L => self.registers.l,
            R8::IndirectHL => {
                let value = self.read(self.registers.hl());
                self.tick(1);
                value
            },
            R8::A => self.registers.a,
        }
    }

    fn set_r8(&mut self, r8: R8, value: u8)
        requires
            old(self).wf(),
            old(self).room(4 * hl_access(r8)),
        ensures
            final(self).wf(),
            final(self).state() == old(self).state().set_r8(r8, value),
            final(self).ticked(old(self), 4 * hl_access(r8)),
    {
        match r8 {
            R8::B => self.registers.b = value,
            R8::C => self.registers.c = value,
            R8::D => self.registers.d = value,
            R8::E => self.registers.e = value,
            R8::H => self.registers.h = value,
            R8::L => self.registers.l = value,
            R8::IndirectHL => {
                let hl = self.registers.hl();
                self.write(hl, value);
                self.tick(1);
            },
            R8::A => self.registers.a = value,
        }
    }

    fn r16_mem(&mut self, r16_mem: R16Mem) -> (v: u8)
        requires
            old(self).wf(),
        ensures
            final(self).wf(),
            v == old(self).state().read(old(self).state().mem_addr(r16_mem)),
            final(self).state() == old(self).state().mem_addr_step(r16_mem),
            final(self).ticked(old(self), 0),
    {
        match r16_mem {
            R16Mem::Bc => self.read(self.registers.r16(R16::Bc)),
            R16Mem::De => self.read(self.registers.r16(R16::De)),
            R16Mem::HlInc => {
                let hl = self.registers.hl();
                let value = self.read(hl);
                self.registers.set_r16(R16::Hl, hl.wrapping_add(1));
                value
            },
            R16Mem::HlDec => {
                let hl = self.registers.hl();
                let value = self.read(hl);
                self.registers.set_r16(R16::Hl, hl.wrapping_sub(1));
                value
            },
        }
    }

    fn set_r16_mem(&mut self, r16_mem: R16Mem, value: u8)
        requires
            old(self).wf(),
        ensures
            final(self).wf(),
            final(self).state() == old(self).state().write(
                old(self).state().mem_addr(r16_mem),
                value,
            ).mem_addr_step(r16_mem),
            final(self).ticked(old(self), 0),
    {
        match r16_mem {
            R16Mem::Bc => {
                let addr = self.registers.r16(R16::Bc);
                self.write(addr, value);
            },
            R16Mem::De => {
                let addr = self.registers.r16(R16::De);
                self.write(addr, value);
            },
            R16Mem::HlInc => {
                let hl = self.registers.hl();
                self.write(hl, value);
                self.registers.set_r16(R16::Hl, hl.wrapping_add(1));
            },
            R16Mem::HlDec => {
                let hl = self.registers.hl();
                self.write(hl, value);
                self.registers.set_r16(R16::Hl, hl.wrapping_sub(1));
            },
        }
    }

    fn check_condition(&self, condition: Condition) -> (r: bool)
        ensures
            r == self.state().condition(condition),
    {
        let flags = self.registers.f;
        match condition {
            Condition::Nz => !flags.z,
            Condition::Z => flags.z,
            Condition::Nc => !flags.c,
            Condition::C => flags.c,
        }
    }

    fn calculate_m_cycles(&self, opcode: Opcode) -> (r: u16)
        ensures
            r == table_m_cycles(self.state(), opcode),
    {
        match opcode {
            Opcode::JpCcNn { c } => {
                if self.check_condition(c) {
                    4
                } else {
                    3
                }
            },
            Opcode::JrCcE { c } => {
                if self.check_condition(c) {
                    3
                } else {
                    2
                }
            },
            Opcode::RetCc { c } => {
                if self.check_condition(c) {
                    5
                } else {
                    2
                }
            },
            _ => m_cycles(opcode),
        }
    }

    /// The byte after the opcode.
    fn imm8(&self) -> (r: u8)
        requires
            self.wf(),
        ensures
            r == self.state().imm8(),
    {
        self.read(self.registers.pc.wrapping_add(1))
    }

    /// The little-endian word after the opcode.
    fn imm16(&self) -> (r: u16)
        requires
            self.wf(),
        ensures
            r == self.state().imm16(),
    {
        let pc = self.registers.pc;
        to_word(self.read(pc.wrapping_add(1)), self.read(pc.wrapping_add(2)))
    }

    fn advance_pc(&mut self, len: u16)
        ensures
            final(self).state() == old(self).state().next_pc(len as int),
            final(self).memory == old(self).memory,
    {
        self.registers.pc = self.registers.pc.wrapping_add(len);
    }
}

/// No instruction takes more than 6 M-cycles.
proof fn lemma_m_cycles_bound(s: CpuModel, op: Opcode)
    ensures
        instruction_m_cycles(s, op) <= 6,
{
}

/// The lowest set bit of the five interrupt bits.
fn first_pending_interrupt(to_service: u8) -> (n: u8)
    ensures
        n == first_pending(to_service),
        n < 5,
{
    if to_service & 0x01 != 0 {
        0
    } else if to_service & 0x02 != 0 {
        1
    } else if to_service & 0x04 != 0 {
        2
    } else if to_service & 0x08 != 0 {
        3
    } else {
        4
    }
}

impl Cpu {
    fn half_tick(&mut self)
        requires
            old(self).room(2),
        ensures
            final(self).state() == old(self).state(),
            final(self).wf() == old(self).wf(),
            final(self).ticked(old(self), 2),
    {
        self.memory.half_increment_timers();
    }

    /// Check for interrupts. A pending interrupt (enabled in IE and
    /// requested in IF) ends HALT; with interrupts enabled the lowest one is
    /// also served. A halted CPU first sleeps until the next interrupt is due.
    pub fn handle_interrupts(&mut self)
        requires
            old(self).wf(),
            old(self).halted ==> (if old(self).memory.next_interrupt > old(self).memory.clock {
                old(self).memory.next_interrupt - old(self).memory.clock
            } else {
                0
            }) / 4 <= 0xFFFF,
            old(self).room(
                interrupt_t_cycles(
                    old(self).state(),
                    old(self).memory.clock,
                    old(self).memory.next_interrupt,
                ),
            ),
        ensures
            final(self).wf(),
            final(self).state() == interrupt_spec(old(self).state()),
            final(self).ticked(
                old(self),
                interrupt_t_cycles(
                    old(self).state(),
                    old(self).memory.clock,
                    old(self).memory.next_interrupt,
                ),
            ),
    {
        if self.halted {
            let t_cycles_until_exit = self.memory.next_interrupt.saturating_sub(self.memory.clock);
            let m_cycles_until_exit = t_cycles_until_exit / 4;
            if m_cycles_until_exit > 0 {
                self.tick(m_cycles_until_exit as u16);
            }
            // DMG checks interrupt flags *between* M-Cycles in halt mode.
            self.half_tick();
        }
        // An interrupt that is both enabled and requested needs to be served.
        let to_service = self.read(IE) & self.read(IF) & 0x1F;
        if self.halted {
            // Another half tick to complete the M-Cycle.
            self.half_tick();
        }
        if to_service == 0 {
            return;
        }
        self.halted = false;
        if self.ime {
            self.ime = false;
            // Interrupts are served in order of least-to-most significant bit:
            // 0 VBlank, 1 LCD, 2 timer, 3 serial and 4 joypad.
            let nth_interrupt = first_pending_interrupt(to_service);
            let flag_mask = !(1u8 << nth_interrupt);
            let flags = self.read(IF) & flag_mask;
            self.write(IF, flags);
            let pc = self.registers.pc;
            self.push_word(pc);
            // Each handler is 8 bytes apart, starting at 0x0040.
            self.registers.pc = 0x0040 + 8 * (nth_interrupt as u16);
            // Serving an interrupt takes 5 M-cycles.
            self.tick(5);
        }
    }

    /// Execute one decoded opcode. The first M-cycle is counted before the
    /// opcode runs and the rest after, except for the opcodes that count
    /// their own cycles.
    pub fn execute_op(&mut self, opcode: Opcode) -> (r: Result<(), CpuError>)
        requires
            old(self).wf(),
            opcode matches Opcode::RstN { x } ==> x < 8,
            opcode != Opcode::Stop ==> old(self).room(4 * instruction_m_cycles(old(self).state(), opcode)),
        ensures
            final(self).wf(),
            opcode == Opcode::Stop ==> r == Err::<(), CpuError>(CpuError::Stop) && *final(self) == *old(self),
            opcode != Opcode::Stop ==> {
                &&& r == Ok::<(), CpuError>(())
                &&& final(self).state() == execute_spec(old(self).state(), opcode)
                &&& final(self).ticked(old(self), 4 * instruction_m_cycles(old(self).state(), opcode))
            },
    {
        if opcode == Opcode::Stop {
            return Err(CpuError::Stop);
        }
        let mut m_cycles = self.calculate_m_cycles(opcode);
        proof {
            lemma_cycle_split(self.state(), opcode);
        }
        if m_cycles > 0 {
            self.tick(1);
            m_cycles -= 1;
        }
        match opcode {
            Opcode::Nop | Opcode::LdRrNn { .. } | Opcode::LdMemA { .. } | Opcode::LdAMem { .. }
            | Opcode::LdNnSp | Opcode::IncRr { .. } | Opcode::DecRr { .. } | Opcode::AddHlRr { .. }
            | Opcode::LdRN { .. } | Opcode::LdRR { .. } | Opcode::Halt | Opcode::LdSpHl | Opcode::Di
            | Opcode::Ei => self.execute_load(opcode),
            Opcode::IncR { .. } | Opcode::DecR { .. } | Opcode::Rlca | Opcode::Rrca | Opcode::Rla
            | Opcode::Rra | Opcode::Daa | Opcode::Cpl | Opcode::Scf | Opcode::Ccf
            | Opcode::AddR { .. } | Opcode::AdcR { .. } | Opcode::SubR { .. } | Opcode::SbcR { .. }
            | Opcode::AndR { .. } | Opcode::XorR { .. } | Opcode::OrR { .. } | Opcode::CpR { .. }
            | Opcode::AddN | Opcode::AdcN | Opcode::SubN | Opcode::SbcN | Opcode::AndN
            | Opcode::XorN | Opcode::OrN | Opcode::CpN | Opcode::AddSpE
            | Opcode::LdHlSpPlusE => self.execute_arith(opcode),
            Opcode::JrE | Opcode::JrCcE { .. } | Opcode::RetCc { .. } | Opcode::Ret | Opcode::Reti
            | Opcode::JpCcNn { .. } | Opcode::JpNn | Opcode::JpHl | Opcode::CallCcNn { .. }
            | Opcode::CallNn | Opcode::RstN { .. } | Opcode::PopRr { .. }
            | Opcode::PushRr { .. } => self.execute_control(opcode),
            Opcode::LdhCA | Opcode::LdhNA | Opcode::LdNnA | Opcode::LdhAC | Opcode::LdhAN
            | Opcode::LdANn => self.execute_io(opcode),
            Opcode::Prefix => self.execute_prefix(),
            Opcode::Stop => {},
        }
        self.tick(m_cycles);
        Ok(())
    }

    /// Check for interrupts, then (unless halted) fetch, decode and execute
    /// one instruction. An illegal opcode is an error, and so is STOP, which
    /// is not implemented.
    pub fn execute(&mut self) -> (r: Result<(), CpuError>)
        requires
            old(self).wf(),
            old(self).halted ==> (if old(self).memory.next_interrupt > old(self).memory.clock {
                old(self).memory.next_interrupt - old(self).memory.clock
            } else {
                0
            }) / 4 <= 0xFFFF,
            old(self).room(
                interrupt_t_cycles(
                    old(self).state(),
                    old(self).memory.clock,
                    old(self).memory.next_interrupt,
                ) + 24,
            ),
        ensures
            final(self).wf(),
            final(self).memory.next_interrupt == old(self).memory.next_interrupt,
            ({
                let s0 = old(self).state();
                let s1 = interrupt_spec(s0);
                let c1 = old(self).memory.clock + interrupt_t_cycles(
                    s0,
                    old(self).memory.clock,
                    old(self).memory.next_interrupt,
                );
                let b = s1.read(s1.regs.pc);
                if s1.halted {
                    r == Ok::<(), CpuError>(()) && final(self).state() == s1
                        && final(self).memory.clock == c1
                } else {
                    match decoded(b) {
                        None => r == Err::<(), CpuError>(CpuError::IllegalOpcode(b))
                            && final(self).state() == s1 && final(self).memory.clock == c1,
                        Some(op) => if op == Opcode::Stop {
                            r == Err::<(), CpuError>(CpuError::Stop) && final(self).state() == s1
                                && final(self).memory.clock == c1
                        } else {
                            r == Ok::<(), CpuError>(()) && final(self).state() == execute_spec(
                                s1,
                                op,
                            ) && final(self).memory.clock == c1 + 4 * instruction_m_cycles(s1, op)
                        },
                    }
                }
            }),
    {
        // A halted CPU does nothing more unless an interrupt wakes it.
        self.handle_interrupts();
        if self.halted {
            return Ok(());
        }
        let bytecode = self.read(self.registers.pc);
        let opcode = match Opcode::decode(bytecode) {
            Ok(opcode) => opcode,
            Err(e) => return Err(e),
        };
        proof {
            lemma_encode_decoded(bytecode);
            lemma_m_cycles_bound(self.state(), opcode);
        }
        self.execute_op(opcode)
    }
}

impl Default for Cpu {
    fn default() -> (r: Self)
        ensures
            r.wf(),
            r.registers == Registers::default_spec(),
            forall|i: int|
                0 <= i < r.memory.buffer@.len() ==> r.memory.buffer@[i] == if i < BOOT_ROM_SIZE {
                    boot_rom_byte(i)
                } else {
                    0
                },
            r.memory.boot_rom_mounted,
            forall|i: int| 0 <= i < BOOT_ROM_SIZE ==> r.memory.under_boot_rom@[i] == 0,
            r.memory.clock == 0,
            r.memory.next_interrupt == 0,
            !r.ime,
            !r.halted,
    {
        Cpu { registers: Registers::default(), memory: AddressBus::default(), ime: false, halted: false }
    }
}

impl PostBoot for Cpu {
    /// The CPU as the boot ROM leaves it: its registers set, and memory
    /// holding the hardware registers' values after boot.
    fn post_boot_dmg() -> (r: Self)
        ensures
            r.wf(),
            r.registers == post_boot_registers(),
            forall|i: int|
                0 <= i < r.memory.buffer@.len() ==> r.memory.buffer@[i]
                    == crate::hw_constants::post_boot_byte(i),
            !r.memory.boot_rom_mounted,
            r.memory.clock == 0,
            !r.ime,
            !r.halted,
    {
        Cpu {
            registers: Registers::post_boot_dmg(),
            memory: AddressBus::post_boot_dmg(),
            ime: false,
            halted: false,
        }
    }
}

} // verus!
