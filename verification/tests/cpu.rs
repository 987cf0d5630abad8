use wataboy::hw_constants::PostBoot;
use wataboy::interpreter::bus::cycles_until_interrupt;
use wataboy::interpreter::cpu::opcodes::{CpuError, Opcode, PrefixOpcode};
use wataboy::interpreter::cpu::parameters::{Condition, R16, R16Mem, R16Stack, R8};
use wataboy::interpreter::cpu::registers::Flags;
use wataboy::interpreter::cpu::Cpu;

fn flags(z: bool, n: bool, h: bool, c: bool) -> Flags {
    Flags { z, n, h, c }
}

/// A CPU with `program` at 0x0100 and PC there.
fn cpu_with(program: &[u8]) -> Cpu {
    let mut cpu = Cpu::default();
    for (i, byte) in program.iter().enumerate() {
        cpu.memory.buffer[0x0100 + i] = *byte;
    }
    cpu.registers.pc = 0x0100;
    cpu.registers.sp = 0xFFFE;
    cpu
}

fn step(cpu: &mut Cpu) {
    cpu.execute().unwrap();
}

#[test]
fn decode_examples() {
    assert_eq!(Opcode::decode(0x00), Ok(Opcode::Nop));
    assert_eq!(Opcode::decode(0x41), Ok(Opcode::LdRR { x: R8::B, y: R8::C }));
    assert_eq!(Opcode::decode(0x76), Ok(Opcode::Halt));
    assert_eq!(Opcode::decode(0x7E), Ok(Opcode::LdRR { x: R8::A, y: R8::IndirectHL }));
    assert_eq!(Opcode::decode(0x21), Ok(Opcode::LdRrNn { x: R16::Hl }));
    assert_eq!(Opcode::decode(0x3A), Ok(Opcode::LdAMem { x: R16Mem::HlDec }));
    assert_eq!(Opcode::decode(0x38), Ok(Opcode::JrCcE { c: Condition::C }));
    assert_eq!(Opcode::decode(0xF1), Ok(Opcode::PopRr { x: R16Stack::Af }));
    assert_eq!(Opcode::decode(0xCB), Ok(Opcode::Prefix));
    assert_eq!(Opcode::decode(0xC7), Ok(Opcode::RstN { x: 0 }));
    assert_eq!(Opcode::decode(0xFF), Ok(Opcode::RstN { x: 7 }));
    assert_eq!(Opcode::decode(0x10), Ok(Opcode::Stop));
    assert_eq!(Opcode::decode(0xD3), Err(CpuError::IllegalOpcode(0xD3)));
    assert_eq!(PrefixOpcode::decode(0x7C), PrefixOpcode::BitBR { b: 7, x: R8::H });
    assert_eq!(PrefixOpcode::decode(0x11), PrefixOpcode::RlR { x: R8::C });
    assert_eq!(PrefixOpcode::decode(0xFE), PrefixOpcode::SetBR { b: 7, x: R8::IndirectHL });
}

#[test]
fn exactly_eleven_bytes_are_illegal() {
    let illegal = [0xD3, 0xDB, 0xDD, 0xE3, 0xE4, 0xEB, 0xEC, 0xED, 0xF4, 0xFC, 0xFD];
    for b in 0..=255u8 {
        assert_eq!(Opcode::decode(b).is_err(), illegal.contains(&b), "byte {b:#04x}");
    }
}

#[test]
fn add_sets_all_flags() {
    let mut cpu = cpu_with(&[0x80]); // ADD A, B
    cpu.registers.a = 0x3A;
    cpu.registers.b = 0xC6;
    step(&mut cpu);
    assert_eq!(cpu.registers.a, 0x00);
    assert_eq!(cpu.registers.f, flags(true, false, true, true));
    assert_eq!(cpu.registers.pc, 0x0101);
    assert_eq!(cpu.memory.clock, 4);
}

#[test]
fn sub_equal_values_is_zero() {
    let mut cpu = cpu_with(&[0x93]); // SUB E
    cpu.registers.a = 0x3E;
    cpu.registers.e = 0x3E;
    step(&mut cpu);
    assert_eq!(cpu.registers.a, 0x00);
    assert_eq!(cpu.registers.f, flags(true, true, false, false));
}

#[test]
fn sbc_borrows_the_carry() {
    let mut cpu = cpu_with(&[0x9C]); // SBC A, H
    cpu.registers.a = 0x3B;
    cpu.registers.h = 0x2A;
    cpu.registers.f = flags(false, false, false, true);
    step(&mut cpu);
    assert_eq!(cpu.registers.a, 0x10);
    assert_eq!(cpu.registers.f, flags(false, true, false, false));
}

#[test]
fn adc_immediate_with_carry() {
    let mut cpu = cpu_with(&[0xCE, 0x0F]); // ADC A, 0x0F
    cpu.registers.a = 0xE1;
    cpu.registers.f = flags(false, false, false, true);
    step(&mut cpu);
    assert_eq!(cpu.registers.a, 0xF1);
    assert_eq!(cpu.registers.f, flags(false, false, true, false));
    assert_eq!(cpu.registers.pc, 0x0102);
    assert_eq!(cpu.memory.clock, 8);
}

#[test]
fn xor_a_clears_a() {
    let mut cpu = cpu_with(&[0xAF]); // XOR A
    cpu.registers.a = 0x5A;
    cpu.registers.f = flags(false, true, true, true);
    step(&mut cpu);
    assert_eq!(cpu.registers.a, 0);
    assert_eq!(cpu.registers.f, flags(true, false, false, false));
}

#[test]
fn cp_keeps_a() {
    let mut cpu = cpu_with(&[0xFE, 0x40]); // CP 0x40
    cpu.registers.a = 0x3C;
    step(&mut cpu);
    assert_eq!(cpu.registers.a, 0x3C);
    assert_eq!(cpu.registers.f, flags(false, true, false, true));
}

#[test]
fn inc_indirect_hl_wraps_and_takes_three_cycles() {
    let mut cpu = cpu_with(&[0x34]); // INC (HL)
    cpu.registers.h = 0xC0;
    cpu.registers.l = 0x00;
    cpu.memory.buffer[0xC000] = 0xFF;
    cpu.registers.f = flags(false, true, false, true);
    step(&mut cpu);
    assert_eq!(cpu.memory.buffer[0xC000], 0x00);
    assert_eq!(cpu.registers.f, flags(true, false, true, true));
    assert_eq!(cpu.memory.clock, 12);
}

#[test]
fn dec_to_zero() {
    let mut cpu = cpu_with(&[0x05]); // DEC B
    cpu.registers.b = 0x01;
    step(&mut cpu);
    assert_eq!(cpu.registers.b, 0);
    assert_eq!(cpu.registers.f, flags(true, true, false, false));
}

#[test]
fn daa_after_bcd_addition() {
    let mut cpu = cpu_with(&[0x80, 0x27]); // ADD A, B; DAA
    cpu.registers.a = 0x45;
    cpu.registers.b = 0x38;
    step(&mut cpu);
    assert_eq!(cpu.registers.a, 0x7D);
    step(&mut cpu);
    assert_eq!(cpu.registers.a, 0x83);
    assert!(!cpu.registers.f.c);
}

#[test]
fn rotates_of_a() {
    let mut cpu = cpu_with(&[0x07, 0x1F]); // RLCA; RRA
    cpu.registers.a = 0x85;
    step(&mut cpu);
    assert_eq!(cpu.registers.a, 0x0B);
    assert_eq!(cpu.registers.f, flags(false, false, false, true));
    cpu.registers.a = 0x81;
    cpu.registers.f = flags(false, false, false, false);
    step(&mut cpu);
    assert_eq!(cpu.registers.a, 0x40);
    assert_eq!(cpu.registers.f, flags(false, false, false, true));
}

#[test]
fn push_then_pop_moves_a_pair() {
    let mut cpu = cpu_with(&[0xC5, 0xD1]); // PUSH BC; POP DE
    cpu.registers.b = 0x12;
    cpu.registers.c = 0x34;
    step(&mut cpu);
    assert_eq!(cpu.registers.sp, 0xFFFC);
    assert_eq!(cpu.memory.buffer[0xFFFC], 0x34);
    assert_eq!(cpu.memory.buffer[0xFFFD], 0x12);
    assert_eq!(cpu.memory.clock, 16);
    step(&mut cpu);
    assert_eq!((cpu.registers.d, cpu.registers.e), (0x12, 0x34));
    assert_eq!(cpu.registers.sp, 0xFFFE);
    assert_eq!(cpu.memory.clock, 28);
}

#[test]
fn pop_af_keeps_only_the_flag_bits() {
    let mut cpu = cpu_with(&[0xF1]); // POP AF
    cpu.registers.sp = 0xC000;
    cpu.memory.buffer[0xC000] = 0xFF;
    cpu.memory.buffer[0xC001] = 0x12;
    step(&mut cpu);
    assert_eq!(cpu.registers.a, 0x12);
    assert_eq!(cpu.registers.f, flags(true, true, true, true));
    assert_eq!(cpu.registers.f.into_bits(), 0xF0);
}

#[test]
fn call_then_ret_returns_after_the_call() {
    let mut cpu = cpu_with(&[0xCD, 0x00, 0x02]); // CALL 0x0200
    cpu.memory.buffer[0x0200] = 0xC9; // RET
    step(&mut cpu);
    assert_eq!(cpu.registers.pc, 0x0200);
    assert_eq!(cpu.registers.sp, 0xFFFC);
    assert_eq!(cpu.memory.buffer[0xFFFD], 0x01);
    assert_eq!(cpu.memory.buffer[0xFFFC], 0x03);
    assert_eq!(cpu.memory.clock, 24);
    step(&mut cpu);
    assert_eq!(cpu.registers.pc, 0x0103);
    assert_eq!(cpu.registers.sp, 0xFFFE);
    assert_eq!(cpu.memory.clock, 40);
}

#[test]
fn relative_jumps() {
    let mut cpu = cpu_with(&[0x18, 0xFE]); // JR -2
    step(&mut cpu);
    assert_eq!(cpu.registers.pc, 0x0100);
    assert_eq!(cpu.memory.clock, 12);

    let mut cpu = cpu_with(&[0x20, 0x05]); // JR NZ, +5
    cpu.registers.f = flags(true, false, false, false);
    step(&mut cpu);
    assert_eq!(cpu.registers.pc, 0x0102);
    assert_eq!(cpu.memory.clock, 8);

    let mut cpu = cpu_with(&[0x20, 0x05]);
    step(&mut cpu);
    assert_eq!(cpu.registers.pc, 0x0107);
    assert_eq!(cpu.memory.clock, 12);
}

#[test]
fn conditional_absolute_jump() {
    let mut cpu = cpu_with(&[0xC2, 0x34, 0x12]); // JP NZ, 0x1234
    step(&mut cpu);
    assert_eq!(cpu.registers.pc, 0x1234);
    assert_eq!(cpu.memory.clock, 16);

    let mut cpu = cpu_with(&[0xC2, 0x34, 0x12]);
    cpu.registers.f = flags(true, false, false, false);
    step(&mut cpu);
    assert_eq!(cpu.registers.pc, 0x0103);
    assert_eq!(cpu.memory.clock, 12);
}

#[test]
fn rst_pushes_the_next_address() {
    let mut cpu = cpu_with(&[0xFF]); // RST 0x38
    step(&mut cpu);
    assert_eq!(cpu.registers.pc, 0x0038);
    assert_eq!(cpu.memory.buffer[0xFFFC], 0x01);
    assert_eq!(cpu.memory.buffer[0xFFFD], 0x01);
    assert_eq!(cpu.memory.clock, 16);
}

#[test]
fn loads_through_hl_and_the_io_page() {
    let mut cpu = cpu_with(&[0x22, 0xE0, 0x44]); // LD (HL+), A; LDH (0x44), A
    cpu.registers.a = 0x77;
    cpu.registers.h = 0xC0;
    step(&mut cpu);
    assert_eq!(cpu.memory.buffer[0xC000], 0x77);
    assert_eq!((cpu.registers.h, cpu.registers.l), (0xC0, 0x01));
    assert_eq!(cpu.memory.clock, 8);
    cpu.registers.a = 0x91;
    step(&mut cpu);
    assert_eq!(cpu.memory.buffer[0xFF44], 0x91);
    assert_eq!(cpu.memory.clock, 20);
}

#[test]
fn sixteen_bit_additions() {
    let mut cpu = cpu_with(&[0x09]); // ADD HL, BC
    cpu.registers.h = 0x8A;
    cpu.registers.l = 0x23;
    cpu.registers.b = 0x06;
    cpu.registers.c = 0x05;
    step(&mut cpu);
    assert_eq!((cpu.registers.h, cpu.registers.l), (0x90, 0x28));
    assert_eq!(cpu.registers.f, flags(false, false, true, false));
    assert_eq!(cpu.memory.clock, 8);

    let mut cpu = cpu_with(&[0xE8, 0x01]); // ADD SP, 1
    cpu.registers.sp = 0x00FF;
    step(&mut cpu);
    assert_eq!(cpu.registers.sp, 0x0100);
    assert_eq!(cpu.registers.f, flags(false, false, true, true));
    assert_eq!(cpu.memory.clock, 16);

    let mut cpu = cpu_with(&[0xF8, 0xFE]); // LD HL, SP-2
    cpu.registers.sp = 0xFFF8;
    step(&mut cpu);
    assert_eq!((cpu.registers.h, cpu.registers.l), (0xFF, 0xF6));
    assert_eq!(cpu.registers.sp, 0xFFF8);
    assert_eq!(cpu.registers.f, flags(false, false, true, true));
    assert_eq!(cpu.memory.clock, 12);
}

#[test]
fn prefixed_opcodes() {
    let mut cpu = cpu_with(&[0xCB, 0x11, 0xCB, 0x7C, 0xCB, 0x86, 0xCB, 0x37, 0xCB, 0x2F]);
    cpu.registers.c = 0x80; // RL C
    step(&mut cpu);
    assert_eq!(cpu.registers.c, 0x00);
    assert_eq!(cpu.registers.f, flags(true, false, false, true));
    assert_eq!(cpu.memory.clock, 8);

    cpu.registers.h = 0x80; // BIT 7, H
    cpu.registers.l = 0x00;
    step(&mut cpu);
    assert_eq!(cpu.registers.f, flags(false, false, true, true));

    cpu.memory.buffer[0x8000] = 0xFF; // RES 0, (HL)
    step(&mut cpu);
    assert_eq!(cpu.memory.buffer[0x8000], 0xFE);
    assert_eq!(cpu.memory.clock, 32);

    cpu.registers.a = 0xF1; // SWAP A
    step(&mut cpu);
    assert_eq!(cpu.registers.a, 0x1F);
    assert_eq!(cpu.registers.f, flags(false, false, false, false));

    cpu.registers.a = 0x8A; // SRA A
    step(&mut cpu);
    assert_eq!(cpu.registers.a, 0xC5);
    assert_eq!(cpu.registers.pc, 0x010A);
}

#[test]
fn halt_wakes_on_an_interrupt_and_serves_it() {
    let mut cpu = cpu_with(&[0x76]); // HALT
    cpu.memory.buffer[0x0050] = 0x00; // NOP in the timer handler
    cpu.ime = true;
    step(&mut cpu);
    assert!(cpu.halted);
    assert_eq!(cpu.registers.pc, 0x0101);
    assert_eq!(cpu.memory.clock, 4);

    // Nothing pending: the CPU sleeps until the next interrupt is due.
    cpu.memory.next_interrupt = 100;
    step(&mut cpu);
    assert!(cpu.halted);
    assert_eq!(cpu.memory.clock, 4 + 96 + 4);

    // The timer interrupt is requested and enabled.
    cpu.memory.buffer[0xFFFF] = 0x04;
    cpu.memory.buffer[0xFF0F] = 0x04;
    cpu.memory.next_interrupt = cpu.memory.clock;
    step(&mut cpu);
    assert!(!cpu.halted);
    assert!(!cpu.ime);
    assert_eq!(cpu.memory.buffer[0xFF0F], 0x00);
    assert_eq!(cpu.memory.buffer[0xFFFC], 0x01);
    assert_eq!(cpu.memory.buffer[0xFFFD], 0x01);
    assert_eq!(cpu.registers.pc, 0x0051);
    assert_eq!(cpu.memory.clock, 104 + 4 + 20 + 4);
}

#[test]
fn lowest_pending_interrupt_goes_first() {
    let mut cpu = cpu_with(&[0x00]);
    cpu.ime = true;
    cpu.memory.buffer[0xFFFF] = 0x1F;
    cpu.memory.buffer[0xFF0F] = 0x06;
    cpu.handle_interrupts();
    assert_eq!(cpu.registers.pc, 0x0048);
    assert_eq!(cpu.memory.buffer[0xFF0F], 0x04);
    assert_eq!(cpu.memory.clock, 20);
}

#[test]
fn disabled_interrupts_only_end_halt() {
    let mut cpu = cpu_with(&[0x00]);
    cpu.halted = true;
    cpu.memory.buffer[0xFFFF] = 0x01;
    cpu.memory.buffer[0xFF0F] = 0x01;
    cpu.handle_interrupts();
    assert!(!cpu.halted);
    assert_eq!(cpu.registers.pc, 0x0100);
    assert_eq!(cpu.memory.buffer[0xFF0F], 0x01);
}

#[test]
fn illegal_opcode_and_stop_are_errors() {
    let mut cpu = cpu_with(&[0xD3]);
    assert_eq!(cpu.execute(), Err(CpuError::IllegalOpcode(0xD3)));
    assert_eq!(cpu.registers.pc, 0x0100);
    let mut cpu = cpu_with(&[0x10, 0x00]);
    assert_eq!(cpu.execute(), Err(CpuError::Stop));
}

#[test]
fn ei_and_di() {
    let mut cpu = cpu_with(&[0xFB, 0xF3]);
    step(&mut cpu);
    assert!(cpu.ime);
    step(&mut cpu);
    assert!(!cpu.ime);
}

#[test]
fn execute_op_runs_a_given_opcode() {
    let mut cpu = cpu_with(&[0x00]);
    cpu.registers.a = 0x42;
    cpu.execute_op(Opcode::LdRR { x: R8::B, y: R8::A }).unwrap();
    assert_eq!(cpu.registers.b, 0x42);
    assert_eq!(cpu.registers.pc, 0x0101);
    assert_eq!(cpu.memory.clock, 4);
}

#[test]
fn post_boot_state() {
    let cpu = Cpu::post_boot_dmg();
    assert_eq!(cpu.registers.a, 0x01);
    assert_eq!(cpu.registers.f.into_bits(), 0xB0);
    assert_eq!((cpu.registers.b, cpu.registers.c), (0x00, 0x13));
    assert_eq!((cpu.registers.d, cpu.registers.e), (0x00, 0xD8));
    assert_eq!((cpu.registers.h, cpu.registers.l), (0x01, 0x4D));
    assert_eq!(cpu.registers.sp, 0xFFFE);
    assert_eq!(cpu.registers.pc, 0x0100);
    assert_eq!(cpu.memory.buffer[0xFF0F], 0xE1);
    assert_eq!(cpu.memory.buffer[0xFF40], 0x91);
}

#[test]
fn flags_round_trip_through_a_byte() {
    assert_eq!(Flags::from_bits(0xA5), flags(true, false, true, false));
    assert_eq!(Flags::from_bits(0xA5).into_bits(), 0xA0);
    assert_eq!(flags(false, true, false, true).into_bits(), 0x50);
}

#[test]
fn load_rom_maps_the_first_32_kib() {
    let mut cpu = Cpu::default();
    let rom: Vec<u8> = (0..0x9000u32).map(|i| (i % 251) as u8).collect();
    cpu.memory.load_rom(&rom);
    // The boot ROM still covers the first 256 bytes.
    assert_eq!(cpu.memory.buffer[0x0000], 0x31);
    assert_eq!(cpu.memory.under_boot_rom[0x0005], 5);
    assert_eq!(cpu.memory.buffer[0x0100], (0x0100 % 251) as u8);
    assert_eq!(cpu.memory.buffer[0x7FFF], (0x7FFF % 251) as u8);
    assert_eq!(cpu.memory.buffer[0x8000], 0);
}

#[test]
fn first_bootrom_instruction() {
    let mut cpu = Cpu::default();
    cpu.memory.load_rom(&vec![0; 0x8000]);
    cpu.execute().unwrap();
    assert_eq!(cpu.registers.sp, 0xFFFE);
}

#[test]
fn boot_rom_hands_over_to_the_cartridge() {
    let mut cpu = Cpu::default();
    let rom: Vec<u8> = (0..0x8000u32).map(|i| (i % 251) as u8).collect();
    cpu.memory.load_rom(&rom);
    let mut steps = 0;
    while cpu.registers.pc != 0x0100 {
        step(&mut cpu);
        steps += 1;
        assert!(steps < 20);
    }
    assert_eq!(steps, 9);
    let post_boot = Cpu::post_boot_dmg();
    assert_eq!(cpu.registers, post_boot.registers);
    assert!(!cpu.memory.boot_rom_mounted);
    assert_eq!(&cpu.memory.buffer[0..0x100], &rom[0..0x100]);
}

#[test]
fn cycles_until_a_scheduled_interrupt() {
    assert_eq!(cycles_until_interrupt(u64::MAX, 10), None);
    assert_eq!(cycles_until_interrupt(100, 40), Some(60));
    assert_eq!(cycles_until_interrupt(40, 100), Some(0));
}

#[test]
fn push_pop_of_the_same_pair_restores_every_register() {
    let mut cpu = cpu_with(&[0xF5, 0xF1]); // PUSH AF; POP AF
    cpu.registers.a = 0x9C;
    cpu.registers.f = flags(true, false, true, false);
    cpu.registers.b = 0x01;
    cpu.registers.h = 0x77;
    let before = cpu.registers;
    step(&mut cpu);
    step(&mut cpu);
    assert_eq!(cpu.registers.pc, 0x0102);
    cpu.registers.pc = before.pc;
    assert_eq!(cpu.registers, before);
}

#[test]
fn a_small_program_sums_one_to_ten() {
    let mut cpu = cpu_with(&[
        0x06, 0x0A, // LD B, 10
        0xAF, // XOR A
        0x80, // loop: ADD A, B
        0x05, // DEC B
        0x20, 0xFC, // JR NZ, loop
        0xCD, 0x00, 0x02, // CALL 0x0200
        0x40, // LD B, B
    ]);
    cpu.memory.buffer[0x0200] = 0x4F; // LD C, A
    cpu.memory.buffer[0x0201] = 0xC9; // RET
    while cpu.registers.pc != 0x010A {
        step(&mut cpu);
    }
    assert_eq!(cpu.registers.a, 55);
    assert_eq!(cpu.registers.c, 55);
    assert_eq!(cpu.registers.b, 0);
    assert!(cpu.registers.f.z);
    assert_eq!(cpu.registers.sp, 0xFFFE);
    assert_eq!(cpu.memory.clock, 252);
}
