//! Tiles and tile maps in video RAM.
use vstd::prelude::*;
use crate::bits::bit_of;

verus! {

pub const TILE_SIZE: usize = 16;
pub const TILE_BLOCK_0_ADDR: usize = 0x8000;
pub const TILE_BLOCK_2_ADDR: usize = 0x9000;

pub const TILE_MAP_SIZE: usize = 0x0400;
pub const TILE_MAP_0_ADDR: usize = 0x9800;
pub const TILE_MAP_1_ADDR: usize = 0x9C00;

/// The two-bit colour index of the pixel in column `nth_bit` (counted from the
/// right) of a tile row stored as the bytes `low` and `high`.
pub open spec fn pixel_index(low: u8, high: u8, nth_bit: u8) -> u8 {
    ((if bit_of(low, nth_bit) { 1int } else { 0int }) + (if bit_of(high, nth_bit) { 2int } else { 0int })) as u8
}

/// The colour indices of a 16-byte tile, row by row, leftmost pixel first:
/// pixel `k` of row `r` is taken from bit `7 - k` of bytes `2r` and `2r + 1`.
pub open spec fn tile_indices(tile: Seq<u8>) -> Seq<u8> {
    Seq::new(64, |i: int| pixel_index(tile[2 * (i / 8)], tile[2 * (i / 8) + 1], (7 - i % 8) as u8))
}

/// Decode a tile into its 64 colour indices (each in 0..=3).
pub fn tile_to_palette_indices(tile: &[u8; 16]) -> (r: Vec<u8>)
    ensures
        r@ == tile_indices(tile@),
        forall|i: int| 0 <= i < r@.len() ==> r@[i] < 4,
{
    let mut out: Vec<u8> = Vec::with_capacity(64);
    let mut row: usize = 0;
    while row < 8
        invariant
            row <= 8,
            out@.len() == 8 * row,
            forall|i: int| 0 <= i < out@.len() ==> out@[i] == #[trigger] tile_indices(tile@)[i],
        decreases 8 - row,
    {
        let least_significant = tile[2 * row];
        let most_significant = tile[2 * row + 1];
        let mut k: u8 = 0;
        while k < 8
            invariant
                row < 8,
                k <= 8,
                least_significant == tile@[2 * row as int],
                most_significant == tile@[2 * row + 1],
                out@.len() == 8 * row + k,
                forall|i: int| 0 <= i < out@.len() ==> out@[i] == #[trigger] tile_indices(tile@)[i],
            decreases 8 - k,
        {
            let nth_bit: u8 = 7 - k;
            let mut palette_index: u8 = 0;
            if least_significant >> nth_bit & 1 == 1 {
                palette_index += 1;
            }
            if most_significant >> nth_bit & 1 == 1 {
                palette_index += 2;
            }
            proof {
                let i = 8 * row + k;
                assert(i / 8 == row as int && i % 8 == k as int) by (nonlinear_arith)
                    requires i == 8 * row + k, k < 8;
            }
            out.push(palette_index);
            k += 1;
        }
        row += 1;
    }
    proof {
        assert forall|i: int| 0 <= i < out@.len() implies out@[i] < 4 by {
            assert(out@[i] == tile_indices(tile@)[i]);
        }
    }
    out
}

/// The 16 bytes of tile `tile_id` in the block at 0x8000 ("unsigned" addressing).
pub fn unsigned_nth_tile(memory: &[u8], tile_id: usize) -> (r: &[u8])
    requires
        TILE_BLOCK_0_ADDR + tile_id * TILE_SIZE + TILE_SIZE <= memory@.len(),
    ensures
        r@ == memory@.subrange(
            TILE_BLOCK_0_ADDR + tile_id * TILE_SIZE,
            TILE_BLOCK_0_ADDR + tile_id * TILE_SIZE + TILE_SIZE,
        ),
{
    let _len = memory.len();
    let tile_start = TILE_BLOCK_0_ADDR + tile_id * TILE_SIZE;
    let tile_end = tile_start + TILE_SIZE;
    &memory[tile_start..tile_end]
}

/// The 16 bytes of tile `tile_id`, counted signed from 0x9000 ("signed" addressing).
pub fn signed_nth_tile(memory: &[u8], tile_id: isize) -> (r: &[u8])
    requires
        -0x900 <= tile_id,
        TILE_BLOCK_2_ADDR + tile_id * TILE_SIZE + TILE_SIZE <= memory@.len(),
    ensures
        r@ == memory@.subrange(
            TILE_BLOCK_2_ADDR + tile_id * TILE_SIZE,
            TILE_BLOCK_2_ADDR + tile_id * TILE_SIZE + TILE_SIZE,
        ),
{
    let _len = memory.len();
    let tile_start: usize = if tile_id >= 0 {
        TILE_BLOCK_2_ADDR + (tile_id as usize) * TILE_SIZE
    } else {
        TILE_BLOCK_2_ADDR - ((-tile_id) as usize) * TILE_SIZE
    };
    let tile_end = tile_start + TILE_SIZE;
    &memory[tile_start..tile_end]
}

/// The first tile map, at 0x9800.
pub fn tile_map_0(memory: &[u8]) -> (r: &[u8])
    requires
        TILE_MAP_0_ADDR + TILE_MAP_SIZE <= memory@.len(),
    ensures
        r@ == memory@.subrange(TILE_MAP_0_ADDR as int, TILE_MAP_0_ADDR + TILE_MAP_SIZE),
{
    let tile_map_start = TILE_MAP_0_ADDR;
    let tile_map_end = tile_map_start + TILE_MAP_SIZE;
    &memory[tile_map_start..tile_map_end]
}

/// The second tile map, at 0x9C00.
pub fn tile_map_1(memory: &[u8]) -> (r: &[u8])
    requires
        TILE_MAP_1_ADDR + TILE_MAP_SIZE <= memory@.len(),
    ensures
        r@ == memory@.subrange(TILE_MAP_1_ADDR as int, TILE_MAP_1_ADDR + TILE_MAP_SIZE),
{
    let tile_map_start = TILE_MAP_1_ADDR;
    let tile_map_end = tile_map_start + TILE_MAP_SIZE;
    &memory[tile_map_start..tile_map_end]
}

} // verus!
