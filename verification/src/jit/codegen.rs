//! The state that recompiling one block of SM83 code builds up.
use vstd::prelude::*;
use crate::hw_constants::ROM_BANK_0_END;
use crate::jit::registers::LocalReg;
use crate::interpreter::cpu::isa::{add16, execute_spec, prefix_effect, signed8, CpuModel};
use crate::interpreter::cpu::opcodes::{base_m_cycles, decoded, m_cycles, Opcode, PrefixOpcode};
use crate::interpreter::cpu::registers::{to_word, word};

verus! {

/// A place where a block can be left: the SM83 PC to continue at and the
/// M-cycles the block has taken up to there.
#[derive(Clone, Copy, PartialEq, Eq, Structural, Debug)]
pub struct Checkpoint {
    pub exit_pc: u16,
    pub total_m_cycles: u16,
}

pub struct CodegenCtx {
    pub needs_outer_block: bool,
    /// The SM83 registers the block uses, in the order they were first
    /// used; the `i`-th is kept in WebAssembly local `NUM_SCRATCH_REGS + i`.
    pub regs_used: Vec<LocalReg>,
    pub block_size: usize,
    pub runtime_ptr: usize,
    pub work_ram_ptr: usize,
    pub rom_ptr: usize,
    pub checkpoints: Vec<Checkpoint>,
    pub traced_pc: u16,
    /// The total number of M-Cycles this block of instructions has taken to execute so far.
    pub total_m_cycles: u16,
}

impl CodegenCtx {
    /// No register is assigned two locals.
    pub open spec fn wf(&self) -> bool {
        self.regs_used@.no_duplicates()
    }

    /// Add a checkpoint at the current point in the trace and return its index.
    pub fn add_checkpoint(&mut self) -> (r: usize)
        requires
            old(self).checkpoints@.len() < usize::MAX,
        ensures
            final(self).checkpoints@ == old(self).checkpoints@.push(
                Checkpoint { exit_pc: old(self).traced_pc, total_m_cycles: old(self).total_m_cycles },
            ),
            r == old(self).checkpoints@.len(),
            final(self).traced_pc == old(self).traced_pc,
            final(self).total_m_cycles == old(self).total_m_cycles,
            final(self).regs_used@ == old(self).regs_used@,
            final(self).block_size == old(self).block_size,
            final(self).needs_outer_block == old(self).needs_outer_block,
            final(self).runtime_ptr == old(self).runtime_ptr,
            final(self).work_ram_ptr == old(self).work_ram_ptr,
            final(self).rom_ptr == old(self).rom_ptr,
    {
        self.checkpoints.push(
            Checkpoint { exit_pc: self.traced_pc, total_m_cycles: self.total_m_cycles },
        );
        self.checkpoints.len() - 1
    }

    pub fn increment_pc(&mut self)
        requires
            old(self).traced_pc < u16::MAX,
        ensures
            final(self).traced_pc == old(self).traced_pc + 1,
            final(self).total_m_cycles == old(self).total_m_cycles,
            final(self).checkpoints@ == old(self).checkpoints@,
            final(self).regs_used@ == old(self).regs_used@,
            final(self).block_size == old(self).block_size,
            final(self).needs_outer_block == old(self).needs_outer_block,
            final(self).runtime_ptr == old(self).runtime_ptr,
            final(self).work_ram_ptr == old(self).work_ram_ptr,
            final(self).rom_ptr == old(self).rom_ptr,
    {
        self.traced_pc += 1;
    }

    pub fn increment_m_cycles(&mut self, m_cycles: u16)
        requires
            old(self).total_m_cycles + m_cycles <= u16::MAX,
        ensures
            final(self).total_m_cycles == old(self).total_m_cycles + m_cycles,
            final(self).traced_pc == old(self).traced_pc,
            final(self).checkpoints@ == old(self).checkpoints@,
            final(self).regs_used@ == old(self).regs_used@,
            final(self).block_size == old(self).block_size,
            final(self).needs_outer_block == old(self).needs_outer_block,
            final(self).runtime_ptr == old(self).runtime_ptr,
            final(self).work_ram_ptr == old(self).work_ram_ptr,
            final(self).rom_ptr == old(self).rom_ptr,
    {
        self.total_m_cycles += m_cycles;
    }
}

impl Default for CodegenCtx {
    fn default() -> (r: Self)
        ensures
            r.wf(),
            !r.needs_outer_block,
            r.regs_used@.len() == 0,
            r.block_size == 0,
            r.runtime_ptr == 0 && r.work_ram_ptr == 0 && r.rom_ptr == 0,
            r.checkpoints@.len() == 0,
            r.traced_pc == 0,
            r.total_m_cycles == 0,
    {
        CodegenCtx {
            needs_outer_block: false,
            regs_used: Vec::new(),
            block_size: 0,
            runtime_ptr: 0,
            work_ram_ptr: 0,
            rom_ptr: 0,
            checkpoints: Vec::new(),
            traced_pc: 0,
            total_m_cycles: 0,
        }
    }
}

/// A recompiled block: its WebAssembly module and what recompiling it found.
pub struct WasmBlock {
    pub buffer: Vec<u8>,
    pub ctx: CodegenCtx,
}

/// A jump from bank 0 (below 0x4000) into the switchable bank, which a block
/// cannot follow because the bank may change.
pub fn leaving_bank_0(prev_pc: u16, pc: u16) -> (r: bool)
    ensures
        r == (prev_pc < ROM_BANK_0_END && pc >= ROM_BANK_0_END),
{
    prev_pc < ROM_BANK_0_END && pc >= ROM_BANK_0_END
}

/// The most instructions a block holds.
pub const MAX_BLOCK_SIZE: usize = 500;

/// Whether a block can follow a jump from `from` to `to`: the target is in
/// ROM, and the jump does not leave bank 0 for the switchable bank.
pub open spec fn followable(from: u16, to: u16) -> bool {
    to < 0x8000 && !(from < ROM_BANK_0_END && to >= ROM_BANK_0_END)
}

/// The instructions a block can hold; the others end it.
pub open spec fn traceable(op: Opcode) -> bool {
    match op {
        Opcode::Nop | Opcode::LdRrNn { .. } | Opcode::LdMemA { .. } | Opcode::LdAMem { .. }
        | Opcode::IncRr { .. } | Opcode::DecRr { .. } | Opcode::AddHlRr { .. } | Opcode::IncR { .. }
        | Opcode::DecR { .. } | Opcode::LdRN { .. } | Opcode::Rlca | Opcode::Rrca | Opcode::Rra
        | Opcode::Cpl | Opcode::Scf | Opcode::Ccf | Opcode::JrE | Opcode::LdRR { .. }
        | Opcode::AddR { .. } | Opcode::AdcR { .. } | Opcode::SubR { .. } | Opcode::SbcR { .. }
        | Opcode::AndR { .. } | Opcode::XorR { .. } | Opcode::OrR { .. } | Opcode::CpR { .. }
        | Opcode::AddN | Opcode::AdcN | Opcode::SubN | Opcode::SbcN | Opcode::AndN | Opcode::XorN
        | Opcode::OrN | Opcode::CpN | Opcode::LdhCA | Opcode::LdhNA | Opcode::LdNnA | Opcode::LdhAN
        | Opcode::LdANn | Opcode::JpNn | Opcode::CallNn | Opcode::PopRr { .. } | Opcode::PushRr { .. }
        | Opcode::Prefix | Opcode::LdHlSpPlusE | Opcode::LdSpHl => true,
        _ => false,
    }
}

/// Whether the instruction at `pc` can start a block: it decodes, a block
/// can hold it, and a jump or call it makes can be followed.
pub open spec fn recompilable_at(mem: Seq<u8>, pc: u16) -> bool {
    match decoded(mem[pc as int]) {
        None => false,
        Some(op) => {
            &&& traceable(op)
            &&& op == Opcode::JrE ==> followable(
                pc,
                add16(add16(pc, 2), signed8(mem[add16(pc, 1) as int])),
            )
            &&& (op == Opcode::JpNn || op == Opcode::CallNn) ==> followable(
                pc,
                word(mem[add16(pc, 1) as int], mem[add16(pc, 2) as int]),
            )
        },
    }
}

/// Instructions whose M-cycles the recompiled code counts itself, beyond
/// the fetch of their opcode.
pub open spec fn counts_own_cycles(op: Opcode) -> bool {
    op is PopRr || op is PushRr || op is LdMemA || op is LdAMem || op is CallNn
}

fn counts_own_cycles_exec(op: Opcode) -> (r: bool)
    ensures
        r == counts_own_cycles(op),
{
    match op {
        Opcode::PopRr { .. } | Opcode::PushRr { .. } | Opcode::LdMemA { .. } | Opcode::LdAMem { .. }
        | Opcode::CallNn => true,
        _ => false,
    }
}

/// The bytes an instruction of a block takes after its opcode.
pub open spec fn operand_bytes(op: Opcode) -> int {
    match op {
        Opcode::LdRN { .. } | Opcode::AddN | Opcode::AdcN | Opcode::SubN | Opcode::SbcN | Opcode::AndN
        | Opcode::XorN | Opcode::OrN | Opcode::CpN | Opcode::LdhNA | Opcode::LdhAN
        | Opcode::LdHlSpPlusE | Opcode::Prefix | Opcode::JrE => 1,
        Opcode::LdRrNn { .. } | Opcode::LdNnA | Opcode::LdANn | Opcode::JpNn | Opcode::CallNn => 2,
        _ => 0,
    }
}

/// Where the trace goes after the instruction at `pc`: the target of a
/// jump or call, otherwise the next instruction.
pub open spec fn trace_next_pc(mem: Seq<u8>, pc: u16) -> u16 {
    match decoded(mem[pc as int]) {
        Some(Opcode::JrE) => add16(add16(pc, 2), signed8(mem[add16(pc, 1) as int])),
        Some(Opcode::JpNn) | Some(Opcode::CallNn) => word(mem[add16(pc, 1) as int], mem[add16(pc, 2) as int]),
        Some(op) => add16(pc, 1 + operand_bytes(op)),
        None => pc,
    }
}

/// The M-cycles the block counts for the instruction at `pc`: one for its
/// opcode (two with a prefix), plus the rest of the instruction's cycles
/// unless the recompiled code counts them itself.
pub open spec fn trace_m_cycles(mem: Seq<u8>, pc: u16) -> int {
    match decoded(mem[pc as int]) {
        Some(op) => 1 + (if op == Opcode::Prefix { 1int } else { 0 }) + (if counts_own_cycles(op)
            || base_m_cycles(op) == 0 {
            0
        } else {
            base_m_cycles(op) - 1
        }),
        None => 0,
    }
}

/// Where executing `op` at `s.regs.pc` leaves PC, for the instructions a
/// block can hold: the target of a jump or call, otherwise past the
/// instruction's operands.
spec fn executed_pc(s: CpuModel, op: Opcode) -> u16 {
    match op {
        Opcode::JrE => add16(add16(s.regs.pc, 2), signed8(s.mem[add16(s.regs.pc, 1) as int])),
        Opcode::JpNn | Opcode::CallNn => word(s.mem[add16(s.regs.pc, 1) as int], s.mem[add16(s.regs.pc, 2) as int]),
        _ => add16(s.regs.pc, 1 + operand_bytes(op)),
    }
}

proof fn lemma_executed_pc_plain(s: CpuModel, op: Opcode)
    requires
        op is Nop || op is Rlca || op is Rrca || op is Rra || op is Cpl || op is Scf || op is Ccf || op is IncRr || op is DecRr || op is AddHlRr || op is LdSpHl,
    ensures
        execute_spec(s, op).regs.pc == executed_pc(s, op),
{
}

proof fn lemma_executed_pc_r8(s: CpuModel, op: Opcode)
    requires
        op is IncR || op is DecR || op is LdRR || op is LdRN,
    ensures
        execute_spec(s, op).regs.pc == executed_pc(s, op),
{
}

proof fn lemma_executed_pc_alu(s: CpuModel, op: Opcode)
    requires
        op is AddR || op is AdcR || op is SubR || op is SbcR || op is AndR || op is XorR || op is OrR || op is CpR,
    ensures
        execute_spec(s, op).regs.pc == executed_pc(s, op),
{
}

proof fn lemma_executed_pc_imm(s: CpuModel, op: Opcode)
    requires
        op is AddN || op is AdcN || op is SubN || op is SbcN || op is AndN || op is XorN || op is OrN || op is CpN || op is LdHlSpPlusE,
    ensures
        execute_spec(s, op).regs.pc == executed_pc(s, op),
{
}

proof fn lemma_executed_pc_mem(s: CpuModel, op: Opcode)
    requires
        op is LdMemA || op is LdAMem || op is LdhCA || op is LdhNA || op is LdNnA || op is LdhAN || op is LdANn || op is LdRrNn,
    ensures
        execute_spec(s, op).regs.pc == executed_pc(s, op),
{
}

proof fn lemma_executed_pc_stack(s: CpuModel, op: Opcode)
    requires
        op is PopRr || op is PushRr || op is CallNn,
    ensures
        execute_spec(s, op).regs.pc == executed_pc(s, op),
{
}

proof fn lemma_executed_pc_jump(s: CpuModel, op: Opcode)
    requires
        op is JrE || op is JpNn || op is Prefix,
    ensures
        execute_spec(s, op).regs.pc == executed_pc(s, op),
{
    let pc = s.regs.pc;
    if op is JrE {
        let e = signed8(s.mem[add16(pc, 1) as int]);
        assert(add16(add16(pc, 2), e) == add16(pc, e + 2));
    } else if op is Prefix {
        lemma_prefix_keeps_pc(s, PrefixOpcode::decoded(s.imm8()));
    }
}

proof fn lemma_executed_pc(s: CpuModel, op: Opcode)
    requires
        traceable(op),
    ensures
        execute_spec(s, op).regs.pc == executed_pc(s, op),
{
    if op is Nop || op is Rlca || op is Rrca || op is Rra || op is Cpl || op is Scf || op is Ccf || op is IncRr || op is DecRr || op is AddHlRr || op is LdSpHl {
        lemma_executed_pc_plain(s, op);
    } else if op is IncR || op is DecR || op is LdRR || op is LdRN {
        lemma_executed_pc_r8(s, op);
    } else if op is AddR || op is AdcR || op is SubR || op is SbcR || op is AndR || op is XorR || op is OrR || op is CpR {
        lemma_executed_pc_alu(s, op);
    } else if op is AddN || op is AdcN || op is SubN || op is SbcN || op is AndN || op is XorN || op is OrN || op is CpN || op is LdHlSpPlusE {
        lemma_executed_pc_imm(s, op);
    } else if op is LdMemA || op is LdAMem || op is LdhCA || op is LdhNA || op is LdNnA || op is LdhAN || op is LdANn || op is LdRrNn {
        lemma_executed_pc_mem(s, op);
    } else if op is PopRr || op is PushRr || op is CallNn {
        lemma_executed_pc_stack(s, op);
    } else if op is JrE || op is JpNn || op is Prefix {
        lemma_executed_pc_jump(s, op);
    }
}

proof fn lemma_prefix_keeps_pc(s: CpuModel, op: PrefixOpcode)
    ensures
        prefix_effect(s, op).regs.pc == s.regs.pc,
{
}

/// A trace follows the program as the interpreter runs it: after each
/// instruction a block can hold, the trace goes on where executing that
/// instruction leaves PC, whatever the registers hold.
pub proof fn lemma_trace_follows_execution(s: CpuModel, op: Opcode)
    requires
        s.mem.len() == 0x10000,
        decoded(s.mem[s.regs.pc as int]) == Some(op),
        traceable(op),
    ensures
        trace_next_pc(s.mem, s.regs.pc) == execute_spec(s, op).regs.pc,
{
    lemma_executed_pc(s, op);
}

/// The PC after tracing `n` instructions from `pc0`.
pub open spec fn trace_pc(mem: Seq<u8>, pc0: u16, n: nat) -> u16
    decreases n,
{
    if n == 0 {
        pc0
    } else {
        trace_next_pc(mem, trace_pc(mem, pc0, (n - 1) as nat))
    }
}

/// The M-cycles counted for the first `n` instructions traced from `pc0`.
pub open spec fn trace_cycles(mem: Seq<u8>, pc0: u16, n: nat) -> int
    decreases n,
{
    if n == 0 {
        0
    } else {
        trace_cycles(mem, pc0, (n - 1) as nat) + trace_m_cycles(mem, trace_pc(mem, pc0, (n - 1) as nat))
    }
}

/// One instruction of a trace: where the trace goes next and the M-cycles
/// counted for it, or `None` where a block cannot hold the instruction.
#[verifier::rlimit(40)]
fn trace_step(mem: &[u8], pc: u16) -> (r: Option<(u16, u16)>)
    requires
        mem@.len() == 0x10000,
    ensures
        r is Some <==> recompilable_at(mem@, pc),
        r matches Some((next, cycles)) ==> next == trace_next_pc(mem@, pc) && cycles == trace_m_cycles(
            mem@,
            pc,
        ) && cycles <= 8,
{
    let bytecode = mem[pc as usize];
    let op = match Opcode::decode(bytecode) {
        Ok(op) => op,
        Err(_) => return None,
    };
    // Fetching the opcode takes an M-cycle.
    let mut cycles: u16 = 1;
    let next: u16;
    match op {
        Opcode::Nop | Opcode::LdMemA { .. } | Opcode::LdAMem { .. } | Opcode::IncRr { .. }
        | Opcode::DecRr { .. } | Opcode::AddHlRr { .. } | Opcode::IncR { .. } | Opcode::DecR { .. }
        | Opcode::Rlca | Opcode::Rrca | Opcode::Rra | Opcode::Cpl | Opcode::Scf | Opcode::Ccf
        | Opcode::LdRR { .. } | Opcode::AddR { .. } | Opcode::AdcR { .. } | Opcode::SubR { .. }
        | Opcode::SbcR { .. } | Opcode::AndR { .. } | Opcode::XorR { .. } | Opcode::OrR { .. }
        | Opcode::CpR { .. } | Opcode::LdhCA | Opcode::PopRr { .. } | Opcode::PushRr { .. }
        | Opcode::LdSpHl => {
            next = pc.wrapping_add(1);
        },
        Opcode::LdRN { .. } | Opcode::AddN | Opcode::AdcN | Opcode::SubN | Opcode::SbcN
        | Opcode::AndN | Opcode::XorN | Opcode::OrN | Opcode::CpN | Opcode::LdhNA | Opcode::LdhAN
        | Opcode::LdHlSpPlusE => {
            next = pc.wrapping_add(2);
        },
        Opcode::LdRrNn { .. } | Opcode::LdNnA | Opcode::LdANn => {
            next = pc.wrapping_add(3);
        },
        Opcode::Prefix => {
            // Fetching the prefixed opcode takes another M-cycle.
            cycles = 2;
            next = pc.wrapping_add(2);
        },
        Opcode::JrE => {
            let e = mem[pc.wrapping_add(1) as usize];
            let after = pc.wrapping_add(2);
            let target = if e < 128 {
                after.wrapping_add(e as u16)
            } else {
                after.wrapping_sub(256 - e as u16)
            };
            proof {
                assert(target == add16(after, signed8(e)));
            }
            if target >= 0x8000 || leaving_bank_0(pc, target) {
                // The jump cannot be followed; the block ends before it.
                return None;
            }
            next = target;
        },
        Opcode::JpNn | Opcode::CallNn => {
            let low = mem[pc.wrapping_add(1) as usize];
            let high = mem[pc.wrapping_add(2) as usize];
            let target = to_word(low, high);
            if target >= 0x8000 || leaving_bank_0(pc, target) {
                // The jump or call cannot be followed; the block ends before it.
                return None;
            }
            next = target;
        },
        _ => return None,
    }
    proof {
        assert(base_m_cycles(op) <= 6);
    }
    if !counts_own_cycles_exec(op) {
        let more = m_cycles(op);
        if more > 0 {
            cycles = cycles + (more - 1);
        }
    }
    Some((next, cycles))
}

/// Trace the block that starts at `pc0`: follow the instructions a block can
/// hold, and the jumps and calls it can follow, until one it cannot hold or
/// follow, or until it holds `MAX_BLOCK_SIZE` instructions. The block's one
/// checkpoint is where it ends, the PC of the first instruction not in it,
/// with the M-cycles counted for the instructions in it; there is no block
/// where the first instruction cannot be held.
pub fn trace_block(mem: &[u8], pc0: u16) -> (r: Option<CodegenCtx>)
    requires
        mem@.len() == 0x10000,
    ensures
        r is Some <==> recompilable_at(mem@, pc0),
        r matches Some(ctx) ==> {
            &&& ctx.wf()
            &&& 1 <= ctx.block_size <= MAX_BLOCK_SIZE
            &&& forall|k: nat| k < ctx.block_size ==> recompilable_at(mem@, #[trigger] trace_pc(mem@, pc0, k))
            &&& ctx.block_size < MAX_BLOCK_SIZE ==> !recompilable_at(
                mem@,
                trace_pc(mem@, pc0, ctx.block_size as nat),
            )
            &&& ctx.traced_pc == trace_pc(mem@, pc0, ctx.block_size as nat)
            &&& ctx.total_m_cycles == trace_cycles(mem@, pc0, ctx.block_size as nat)
            &&& ctx.checkpoints@ == seq![
                Checkpoint { exit_pc: ctx.traced_pc, total_m_cycles: ctx.total_m_cycles },
            ]
            &&& ctx.regs_used@.len() == 0
        },
{
    let mut pc: u16 = pc0;
    let mut total: u16 = 0;
    let mut size: usize = 0;
    loop
        invariant
            mem@.len() == 0x10000,
            size <= MAX_BLOCK_SIZE,
            pc == trace_pc(mem@, pc0, size as nat),
            total == trace_cycles(mem@, pc0, size as nat),
            total <= 8 * size,
            forall|k: nat| k < size ==> recompilable_at(mem@, #[trigger] trace_pc(mem@, pc0, k)),
        ensures
            size < MAX_BLOCK_SIZE ==> !recompilable_at(mem@, pc),
        decreases MAX_BLOCK_SIZE - size,
    {
        if size >= MAX_BLOCK_SIZE {
            break;
        }
        let (next, cycles) = match trace_step(mem, pc) {
            Some(step) => step,
            None => break,
        };
        proof {
            assert(trace_pc(mem@, pc0, (size + 1) as nat) == trace_next_pc(mem@, pc));
            assert forall|k: nat| k < size + 1 implies recompilable_at(mem@, #[trigger] trace_pc(mem@, pc0, k)) by {
                if k == size {
                    assert(trace_pc(mem@, pc0, k) == pc);
                }
            }
        }
        pc = next;
        total = total + cycles;
        size = size + 1;
    }
    if size == 0 {
        return None;
    }
    let mut checkpoints: Vec<Checkpoint> = Vec::new();
    checkpoints.push(Checkpoint { exit_pc: pc, total_m_cycles: total });
    let ctx = CodegenCtx {
        needs_outer_block: false,
        regs_used: Vec::new(),
        block_size: size,
        runtime_ptr: 0,
        work_ram_ptr: 0,
        rom_ptr: 0,
        checkpoints,
        traced_pc: pc,
        total_m_cycles: total,
    };
    proof {
        assert(ctx.checkpoints@ =~= seq![Checkpoint { exit_pc: ctx.traced_pc, total_m_cycles: ctx.total_m_cycles }]);
        if size > 0 {
            assert(recompilable_at(mem@, trace_pc(mem@, pc0, 0)));
        }
    }
    Some(ctx)
}

} // verus!
