//! The SM83 registers a recompiled block keeps in WebAssembly locals.
use vstd::prelude::*;
use crate::interpreter::cpu::parameters::R8;
use crate::jit::codegen::CodegenCtx;

verus! {

/// Locals below this index are the emitted code's scratch registers.
pub const NUM_SCRATCH_REGS: u32 = 3;

#[derive(Clone, Copy, PartialEq, Eq, Structural, Debug, Hash)]
pub enum LocalReg {
    A,
    F,
    B,
    C,
    D,
    E,
    H,
    L,
    SP,
}

/// All nine registers.
pub open spec fn all_local_regs() -> Set<LocalReg> {
    set![
        LocalReg::A,
        LocalReg::F,
        LocalReg::B,
        LocalReg::C,
        LocalReg::D,
        LocalReg::E,
        LocalReg::H,
        LocalReg::L,
        LocalReg::SP,
    ]
}

/// At most nine distinct registers can be in use.
proof fn lemma_at_most_nine(regs: Seq<LocalReg>)
    requires
        regs.no_duplicates(),
    ensures
        regs.len() <= 9,
{
    regs.unique_seq_to_set();
    assert(all_local_regs().len() == 9);
    assert forall|r: LocalReg| regs.to_set().contains(r) implies all_local_regs().contains(r) by {
        match r {
            LocalReg::A => {},
            LocalReg::F => {},
            LocalReg::B => {},
            LocalReg::C => {},
            LocalReg::D => {},
            LocalReg::E => {},
            LocalReg::H => {},
            LocalReg::L => {},
            LocalReg::SP => {},
        }
    }
    vstd::set_lib::lemma_len_subset(regs.to_set(), all_local_regs());
}

/// The registers in use after asking for `reg`'s local, and that local:
/// a register keeps the local it was first given; a new one gets the next.
pub open spec fn assign_local(regs: Seq<LocalReg>, reg: LocalReg) -> (Seq<LocalReg>, u32) {
    if regs.contains(reg) {
        (regs, (NUM_SCRATCH_REGS + regs.index_of(reg)) as u32)
    } else {
        (regs.push(reg), (NUM_SCRATCH_REGS + regs.len()) as u32)
    }
}

/// Asking again for a register's local gives the same local and changes
/// nothing.
pub proof fn lemma_local_stable(regs: Seq<LocalReg>, reg: LocalReg)
    requires
        regs.no_duplicates(),
    ensures
        assign_local(assign_local(regs, reg).0, reg) == assign_local(regs, reg),
        assign_local(regs, reg).0.no_duplicates(),
{
    if !regs.contains(reg) {
        let r2 = regs.push(reg);
        assert(r2[regs.len() as int] == reg);
        assert(r2.contains(reg));
        let k = r2.index_of(reg);
        assert(0 <= k < r2.len() && r2[k] == reg);
        assert(r2.index_of(reg) == regs.len()) by {
            if k < regs.len() {
                assert(regs[k] == r2[k]);
            }
        }
        assert(r2.no_duplicates()) by {
            assert forall|i: int, j: int| 0 <= i < r2.len() && 0 <= j < r2.len() && i != j implies r2[i]
                != r2[j] by {
                if i < regs.len() && j < regs.len() {
                    assert(regs[i] != regs[j]);
                } else if i < regs.len() {
                    assert(regs[i] == r2[i]);
                } else if j < regs.len() {
                    assert(regs[j] == r2[j]);
                }
            }
        }
    }
}

/// Two different registers never share a local.
pub proof fn lemma_locals_distinct(regs: Seq<LocalReg>, r1: LocalReg, r2: LocalReg)
    requires
        regs.no_duplicates(),
        r1 != r2,
    ensures
        assign_local(assign_local(regs, r1).0, r2).1 != assign_local(regs, r1).1,
{
    lemma_local_stable(regs, r1);
    lemma_at_most_nine(regs);
    let regs1 = assign_local(regs, r1).0;
    lemma_at_most_nine(regs1);
    let i1 = assign_local(regs, r1).1;
    if !regs.contains(r1) {
        assert(regs1[regs.len() as int] == r1);
    }
    assert(regs1.contains(r1));
    let k1 = regs1.index_of(r1);
    assert(0 <= k1 < regs1.len() && regs1[k1] == r1);
    if regs1.contains(r2) {
        let k2 = regs1.index_of(r2);
        assert(0 <= k2 < regs1.len() && regs1[k2] == r2);
    }
}

impl LocalReg {
    pub open spec fn from_r8_spec(r: R8) -> Option<LocalReg> {
        match r {
            R8::B => Some(LocalReg::B),
            R8::C => Some(LocalReg::C),
            R8::D => Some(LocalReg::D),
            R8::E => Some(LocalReg::E),
            R8::H => Some(LocalReg::H),
            R8::L => Some(LocalReg::L),
            R8::IndirectHL => None,
            R8::A => Some(LocalReg::A),
        }
    }

    /// The register an 8-bit operand names; (HL) is memory, not a register.
    pub fn from_r8(value: R8) -> (r: Result<LocalReg, &'static str>)
        ensures
            match LocalReg::from_r8_spec(value) {
                Some(l) => r == Ok::<LocalReg, &'static str>(l),
                None => r is Err,
            },
    {
        match value {
            R8::B => Ok(LocalReg::B),
            R8::C => Ok(LocalReg::C),
            R8::D => Ok(LocalReg::D),
            R8::E => Ok(LocalReg::E),
            R8::H => Ok(LocalReg::H),
            R8::L => Ok(LocalReg::L),
            R8::IndirectHL => Err("IndirectHL is not a valid LocalReg"),
            R8::A => Ok(LocalReg::A),
        }
    }

    /// The WebAssembly local that holds this register, assigning the next
    /// free one on first use.
    pub fn to_index(self, ctx: &mut CodegenCtx) -> (r: u32)
        requires
            old(ctx).wf(),
        ensures
            final(ctx).wf(),
            (final(ctx).regs_used@, r) == assign_local(old(ctx).regs_used@, self),
            final(ctx).traced_pc == old(ctx).traced_pc,
            final(ctx).total_m_cycles == old(ctx).total_m_cycles,
            final(ctx).checkpoints@ == old(ctx).checkpoints@,
            final(ctx).block_size == old(ctx).block_size,
            final(ctx).needs_outer_block == old(ctx).needs_outer_block,
    {
        proof {
            lemma_at_most_nine(ctx.regs_used@);
            lemma_local_stable(ctx.regs_used@, self);
        }
        let mut i: usize = 0;
        while i < ctx.regs_used.len()
            invariant
                i <= ctx.regs_used@.len(),
                ctx.regs_used@.len() <= 9,
                ctx.regs_used@ == old(ctx).regs_used@,
                ctx.regs_used@.no_duplicates(),
                forall|k: int| 0 <= k < i ==> ctx.regs_used@[k] != self,
            decreases ctx.regs_used@.len() - i,
        {
            if ctx.regs_used[i] == self {
                proof {
                    assert(ctx.regs_used@[i as int] == self);
                    assert(ctx.regs_used@.contains(self));
                    assert(ctx.regs_used@.index_of(self) == i) by {
                        if ctx.regs_used@.index_of(self) != i as int {
                            assert(ctx.regs_used@[ctx.regs_used@.index_of(self)] == self);
                        }
                    }
                }
                return NUM_SCRATCH_REGS + i as u32;
            }
            i += 1;
        }
        let index = NUM_SCRATCH_REGS + ctx.regs_used.len() as u32;
        ctx.regs_used.push(self);
        index
    }
}

} // verus!
