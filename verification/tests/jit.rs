use wataboy::interpreter::cpu::parameters::R8;
use wataboy::jit::cache::{remaining_m_cycles, wont_be_interrupted, BlockSlot, CacheAddress, CompiledBlock};
use wataboy::jit::codegen::{leaving_bank_0, trace_block, Checkpoint, CodegenCtx};
use wataboy::jit::registers::{LocalReg, NUM_SCRATCH_REGS};

#[test]
fn registers_keep_their_local() {
    let mut ctx = CodegenCtx::default();
    assert_eq!(LocalReg::A.to_index(&mut ctx), NUM_SCRATCH_REGS);
    assert_eq!(LocalReg::H.to_index(&mut ctx), NUM_SCRATCH_REGS + 1);
    assert_eq!(LocalReg::A.to_index(&mut ctx), NUM_SCRATCH_REGS);
    assert_eq!(LocalReg::SP.to_index(&mut ctx), NUM_SCRATCH_REGS + 2);
    assert_eq!(ctx.regs_used, vec![LocalReg::A, LocalReg::H, LocalReg::SP]);
}

#[test]
fn checkpoints_record_pc_and_cycles() {
    let mut ctx = CodegenCtx::default();
    ctx.traced_pc = 0x0150;
    ctx.increment_m_cycles(3);
    assert_eq!(ctx.add_checkpoint(), 0);
    ctx.increment_pc();
    ctx.increment_m_cycles(2);
    assert_eq!(ctx.add_checkpoint(), 1);
    assert_eq!(ctx.checkpoints[0], Checkpoint { exit_pc: 0x0150, total_m_cycles: 3 });
    assert_eq!(ctx.checkpoints[1], Checkpoint { exit_pc: 0x0151, total_m_cycles: 5 });
}

#[test]
fn only_jumps_out_of_bank_0_leave_it() {
    assert!(leaving_bank_0(0x3FFF, 0x4000));
    assert!(!leaving_bank_0(0x4000, 0x4100));
    assert!(!leaving_bank_0(0x1000, 0x2000));
    assert!(!leaving_bank_0(0x5000, 0x1000));
}

#[test]
fn indirect_hl_has_no_local() {
    assert_eq!(LocalReg::from_r8(R8::B), Ok(LocalReg::B));
    assert!(LocalReg::from_r8(R8::IndirectHL).is_err());
}

#[test]
fn cache_addresses_pack_bank_and_address() {
    let address = CacheAddress { bank_number: 3, address: 0x4567 };
    assert_eq!(address.into_bits(), 0x0003_4567);
    assert_eq!(CacheAddress::from_bits(0xAB03_4567), address);
    assert_eq!(CacheAddress::from_bits(address.into_bits()), address);
}

#[test]
fn block_timing() {
    assert_eq!(remaining_m_cycles(100, 60, 20), 10);
    assert!(wont_be_interrupted(0, 10, 40));
    assert!(!wont_be_interrupted(0, 11, 40));
}

#[test]
fn compiled_slot_gives_its_block() {
    let slot = BlockSlot::Compiled(CompiledBlock {
        func_idx: 7,
        checkpoints: vec![Checkpoint { exit_pc: 0x200, total_m_cycles: 4 }],
    });
    let block = slot.unwrap_compiled_block();
    assert_eq!(block.func_idx, 7);
    assert_eq!(block.checkpoints.len(), 1);
}

fn memory_with(program: &[u8]) -> Vec<u8> {
    let mut mem = vec![0x76u8; 0x10000]; // HALT everywhere else
    mem[0x0100..0x0100 + program.len()].copy_from_slice(program);
    mem
}

#[test]
fn trace_stops_at_an_instruction_it_cannot_hold() {
    let mem = memory_with(&[0x00, 0x00]); // NOP; NOP; then HALT
    let ctx = trace_block(&mem, 0x0100).unwrap();
    assert_eq!(ctx.block_size, 2);
    assert_eq!(ctx.traced_pc, 0x0102);
    assert_eq!(ctx.total_m_cycles, 2);
    assert_eq!(ctx.checkpoints, vec![Checkpoint { exit_pc: 0x0102, total_m_cycles: 2 }]);
}

#[test]
fn no_block_starts_at_halt() {
    let mem = memory_with(&[]);
    assert!(trace_block(&mem, 0x0100).is_none());
}

#[test]
fn trace_follows_a_jump_within_bank_0() {
    let mut mem = memory_with(&[0xC3, 0x50, 0x01]); // JP 0x0150
    mem[0x0150] = 0x01; // LD BC, 0x1234
    mem[0x0151] = 0x34;
    mem[0x0152] = 0x12;
    let ctx = trace_block(&mem, 0x0100).unwrap();
    assert_eq!(ctx.block_size, 2);
    assert_eq!(ctx.traced_pc, 0x0153);
    assert_eq!(ctx.total_m_cycles, 4 + 3);
}

#[test]
fn no_block_starts_with_a_jump_out_of_bank_0() {
    let mem = memory_with(&[0xC3, 0x00, 0x40]); // JP 0x4000
    assert!(trace_block(&mem, 0x0100).is_none());
}

#[test]
fn a_block_holds_at_most_500_instructions() {
    let mut mem = memory_with(&[]);
    for b in &mut mem[0x0100..0x0400] {
        *b = 0x00;
    }
    let ctx = trace_block(&mem, 0x0100).unwrap();
    assert_eq!(ctx.block_size, 500);
    assert_eq!(ctx.total_m_cycles, 500);
    assert_eq!(ctx.traced_pc, 0x0100 + 500);
}

#[test]
fn push_counts_only_its_fetch() {
    let mem = memory_with(&[0xC5, 0x00]); // PUSH BC; NOP
    let ctx = trace_block(&mem, 0x0100).unwrap();
    assert_eq!(ctx.block_size, 2);
    assert_eq!(ctx.total_m_cycles, 2);
    assert_eq!(ctx.traced_pc, 0x0102);
}
