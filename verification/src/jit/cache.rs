//! Keys of the compiled-block cache and what a cache slot holds.
use vstd::prelude::*;
use crate::jit::codegen::Checkpoint;

verus! {

/// A ROM location: bank number and address, packed into the low 24 bits of
/// a `u32` (bank in bits 23..=16).
#[derive(Clone, Copy, PartialEq, Eq, Structural, Debug)]
pub struct CacheAddress {
    pub bank_number: u8,
    pub address: u16,
}

impl CacheAddress {
    pub open spec fn bits(self) -> u32 {
        (self.bank_number * 0x10000 + self.address) as u32
    }

    pub fn into_bits(self) -> (r: u32)
        ensures
            r == self.bits(),
    {
        (self.bank_number as u32) * 0x10000 + self.address as u32
    }

    /// The location that bits 23..=0 of `bits` name.
    pub fn from_bits(bits: u32) -> (r: Self)
        ensures
            r.bits() == bits % 0x100_0000,
    {
        CacheAddress { bank_number: ((bits / 0x10000) % 0x100) as u8, address: (bits % 0x10000) as u16 }
    }
}

/// Packing a location and unpacking it gives it back.
pub proof fn lemma_cache_address_roundtrip(a: CacheAddress)
    ensures
        a.bits() < 0x100_0000,
        (a.bits() / 0x10000) % 0x100 == a.bank_number,
        a.bits() % 0x10000 == a.address,
{
}

pub struct CompiledBlock {
    /// Index of the block's function in the runtime's table.
    pub func_idx: i32,
    pub checkpoints: Vec<Checkpoint>,
}

pub enum BlockSlot {
    Uncompiled,
    Compiled(CompiledBlock),
    Uncompilable,
}

impl BlockSlot {
    pub fn unwrap_compiled_block(&self) -> (r: &CompiledBlock)
        requires
            self is Compiled,
        ensures
            *r == self->Compiled_0,
    {
        match self {
            BlockSlot::Compiled(compiled_block) => compiled_block,
            _ => {
                proof {
                    assert(false);
                }
                unreached()
            },
        }
    }
}

/// The M-cycles of a block still to be counted when it is left at a
/// checkpoint that has taken `total_m_cycles`, when `clock` has moved on
/// from `block_start_clock` during the block.
pub fn remaining_m_cycles(clock: u64, block_start_clock: u64, total_m_cycles: u16) -> (r: u16)
    requires
        block_start_clock <= clock,
        (clock - block_start_clock) / 4 <= total_m_cycles,
    ensures
        r == total_m_cycles - (clock - block_start_clock) / 4,
{
    let m_cycles_so_far = (clock - block_start_clock) / 4;
    (total_m_cycles as u64 - m_cycles_so_far) as u16
}

/// Whether a block can run up to its first checkpoint, which takes
/// `m_cycles` M-cycles, before the next interrupt is due.
pub fn wont_be_interrupted(clock: u64, m_cycles: u16, next_interrupt: u64) -> (r: bool)
    requires
        clock + 4 * m_cycles <= u64::MAX,
    ensures
        r == (clock + 4 * m_cycles <= next_interrupt),
{
    clock + (m_cycles as u64) * 4 <= next_interrupt
}

} // verus!
