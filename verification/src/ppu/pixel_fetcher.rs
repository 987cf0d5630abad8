//! An earlier background fetcher that steps every second dot and keeps up to
//! sixteen pixels queued.
use vstd::prelude::*;
use std::collections::VecDeque;
use crate::bits::bit_of;
use crate::hw_constants::MEM_MAP_SIZE;
use crate::ppu::lcd;
use crate::ppu::lcd_control::lcdc_of;
use crate::ppu::tiles;
use crate::ppu::bg_fetcher::tile_addr;

verus! {

pub const SCY: usize = 0xFF42;
pub const SCX: usize = 0xFF43;
pub const WX: usize = 0xFF4B;

#[derive(Copy, Clone, PartialEq, Eq, Structural, Debug)]
pub struct Pixel {
    pub low: bool,
    pub high: bool,
}

#[derive(Copy, Clone, PartialEq, Eq, Structural, Debug)]
pub enum FetcherState {
    GetTile,
    GetTileDataLow,
    GetTileDataHigh,
    Sleep,
    Push,
}

pub struct PixelFetcher {
    pub state: FetcherState,
    pub drawing_window: bool,
    pub ticks: u8,
    pub bg_fifo: VecDeque<Pixel>,
    pub tile_id: u8,
    pub tile_line: u8,
    pub tile_x: u8,
    pub second_tile_map: bool,
    pub tile_data_low: u8,
    pub tile_data_high: u8,
}

/// The eight pixels of a tile row in FIFO order: leftmost (bit 7) first.
pub open spec fn pixel_row(low: u8, high: u8) -> Seq<Pixel> {
    Seq::new(8, |i: int| Pixel { low: bit_of(low, (7 - i) as u8), high: bit_of(high, (7 - i) as u8) })
}

impl PixelFetcher {
    pub open spec fn wf(self) -> bool {
        &&& self.ticks < 2
        &&& self.tile_line < 8
        &&& self.bg_fifo@.len() <= 16
    }

    /// The map column, the map row in pixels, and whether the second tile map
    /// is used, for a tile fetch at `x_coord`.
    pub open spec fn fetch_target(self, memory: Seq<u8>, x_coord: u8, current_scanline: u8, window_y: u8) -> (int, int, bool) {
        let lcdc = lcdc_of(memory);
        let second = (bit_of(lcdc, 3) && !self.drawing_window) || (bit_of(lcdc, 6) && self.drawing_window);
        let tile_x = if self.drawing_window {
            (x_coord - memory[WX as int]) / 8
        } else {
            (memory[SCX as int] / 8 + self.tile_x) % 32
        };
        let ly = if self.drawing_window { window_y as int } else { current_scanline + memory[SCY as int] };
        (tile_x, ly, second)
    }

    /// What `tick` needs: a full memory map, and when this dot fetches a tile
    /// number, arithmetic that stays within a byte.
    pub open spec fn tick_ok(self, memory: Seq<u8>, x_coord: u8, current_scanline: u8) -> bool {
        &&& self.wf()
        &&& memory.len() == MEM_MAP_SIZE
        &&& (self.ticks == 1 && self.state == FetcherState::GetTile) ==> {
            &&& self.tile_x < 255
            &&& self.drawing_window ==> x_coord >= memory[WX as int]
            &&& !self.drawing_window ==> current_scanline + memory[SCY as int] <= 255
                && memory[SCX as int] / 8 + self.tile_x <= 255
        }
    }


    /// Shift out a pixel from the background FIFO, if it holds more than 8.
    pub fn shift_out(&mut self) -> (r: Option<Pixel>)
        requires
            old(self).wf(),
        ensures
            final(self).wf(),
            old(self).bg_fifo@.len() <= 8 ==> r is None && final(self).bg_fifo@ == old(self).bg_fifo@,
            old(self).bg_fifo@.len() > 8 ==> r == Some(old(self).bg_fifo@[0]) && final(self).bg_fifo@
                == old(self).bg_fifo@.drop_first(),
            final(self).state == old(self).state && final(self).ticks == old(self).ticks,
            final(self).drawing_window == old(self).drawing_window,
            final(self).tile_id == old(self).tile_id && final(self).tile_line == old(self).tile_line,
            final(self).tile_x == old(self).tile_x && final(self).second_tile_map == old(self).second_tile_map,
            final(self).tile_data_low == old(self).tile_data_low,
            final(self).tile_data_high == old(self).tile_data_high,
    {
        if self.bg_fifo.len() <= 8 {
            None
        } else {
            let r = self.bg_fifo.pop_front();
            assert(old(self).bg_fifo@.subrange(1, old(self).bg_fifo@.len() as int) =~= old(self).bg_fifo@.drop_first());
            r
        }
    }

    /// Push a row of 8 pixels to the FIFO, unless it holds more than 8.
    fn push(&mut self) -> (r: bool)
        requires
            old(self).wf(),
        ensures
            final(self).wf(),
            r == (old(self).bg_fifo@.len() <= 8),
            r ==> final(self).bg_fifo@ == old(self).bg_fifo@ + pixel_row(
                old(self).tile_data_low,
                old(self).tile_data_high,
            ),
            !r ==> final(self).bg_fifo@ == old(self).bg_fifo@,
            final(self).state == old(self).state && final(self).ticks == old(self).ticks,
            final(self).drawing_window == old(self).drawing_window,
            final(self).tile_id == old(self).tile_id && final(self).tile_line == old(self).tile_line,
            final(self).tile_x == old(self).tile_x && final(self).second_tile_map == old(self).second_tile_map,
            final(self).tile_data_low == old(self).tile_data_low,
            final(self).tile_data_high == old(self).tile_data_high,
    {
        if self.bg_fifo.len() > 8 {
            return false;
        }
        let mut k: u8 = 0;
        while k < 8
            invariant
                k <= 8,
                old(self).bg_fifo@.len() <= 8,
                self.bg_fifo@ == old(self).bg_fifo@ + pixel_row(self.tile_data_low, self.tile_data_high).take(
                    k as int,
                ),
                self.state == old(self).state && self.ticks == old(self).ticks,
                self.drawing_window == old(self).drawing_window,
                self.tile_id == old(self).tile_id && self.tile_line == old(self).tile_line,
                self.tile_x == old(self).tile_x && self.second_tile_map == old(self).second_tile_map,
                self.tile_data_low == old(self).tile_data_low,
                self.tile_data_high == old(self).tile_data_high,
            decreases 8 - k,
        {
            let nth_bit: u8 = 7 - k;
            let pixel = Pixel {
                low: (self.tile_data_low >> nth_bit) & 1 == 1,
                high: (self.tile_data_high >> nth_bit) & 1 == 1,
            };
            self.bg_fifo.push_back(pixel);
            proof {
                let row = pixel_row(self.tile_data_low, self.tile_data_high);
                assert(old(self).bg_fifo@ + row.take(k + 1) =~= (old(self).bg_fifo@ + row.take(k as int)).push(
                    pixel,
                ));
            }
            k += 1;
        }
        assert(pixel_row(self.tile_data_low, self.tile_data_high).take(8) =~= pixel_row(
            self.tile_data_low,
            self.tile_data_high,
        ));
        true
    }

    pub fn clear(&mut self)
        ensures
            final(self).bg_fifo@.len() == 0,
            final(self).state == old(self).state && final(self).ticks == old(self).ticks,
            final(self).drawing_window == old(self).drawing_window,
            final(self).tile_id == old(self).tile_id && final(self).tile_line == old(self).tile_line,
            final(self).tile_x == old(self).tile_x && final(self).second_tile_map == old(self).second_tile_map,
            final(self).tile_data_low == old(self).tile_data_low,
            final(self).tile_data_high == old(self).tile_data_high,
    {
        self.bg_fifo.clear();
    }

    fn get_tile(&mut self, memory: &[u8], x_coord: u8, current_scanline: u8, window_y: u8)
        requires
            old(self).tick_ok(memory@, x_coord, current_scanline),
            old(self).ticks == 1 && old(self).state == FetcherState::GetTile,
        ensures
            ({
                let (tile_x, ly, second) = old(self).fetch_target(memory@, x_coord, current_scanline, window_y);
                &&& final(self).second_tile_map == second
                &&& final(self).tile_id == memory@[(if second { 0x9C00int } else { 0x9800int }) + (ly / 8) * 32 + tile_x]
                &&& final(self).tile_line == ly % 8
            }),
            final(self).tile_x == old(self).tile_x + 1,
            final(self).bg_fifo@ == old(self).bg_fifo@,
            final(self).state == old(self).state && final(self).ticks == old(self).ticks,
            final(self).drawing_window == old(self).drawing_window,
            final(self).tile_data_low == old(self).tile_data_low,
            final(self).tile_data_high == old(self).tile_data_high,
    {
        let bg_second_tile_map = lcd::bg_tile_map(memory) && !self.drawing_window;
        let window_second_tile_map = lcd::window_tile_map(memory) && self.drawing_window;
        self.second_tile_map = bg_second_tile_map || window_second_tile_map;

        let tile_x: u8 = if self.drawing_window {
            (x_coord - memory[WX]) / 8
        } else {
            ((memory[SCX] / 8) + self.tile_x) & 0x1F
        };
        proof {
            let s = (memory@[SCX as int] / 8 + old(self).tile_x) as u8;
            assert(s & 0x1Fu8 == s % 32) by (bit_vector);
        }

        let ly: u8 = if self.drawing_window {
            window_y
        } else {
            current_scanline + memory[SCY]
        };
        let tile_y = ly / 8;

        let tile_map = if self.second_tile_map {
            tiles::tile_map_1(memory)
        } else {
            tiles::tile_map_0(memory)
        };

        self.tile_id = tile_map[tile_y as usize * 32 + tile_x as usize];
        self.tile_line = ly % 8;
        self.tile_x += 1;
    }

    fn tile_start(&self, memory: &[u8]) -> (r: usize)
        requires
            memory@.len() == MEM_MAP_SIZE,
        ensures
            r == tile_addr(memory@, self.tile_id),
            r + 16 <= 0x9800,
    {
        if lcd::bg_and_window_tiles(memory) {
            0x8000 + self.tile_id as usize * 16
        } else if self.tile_id < 128 {
            0x9000 + self.tile_id as usize * 16
        } else {
            0x9000 - (256 - self.tile_id as usize) * 16
        }
    }

    /// Advance the fetcher by one dot; it acts on every second dot.
    pub fn tick(&mut self, memory: &[u8], x_coord: u8, current_scanline: u8, window_y: u8)
        requires
            old(self).tick_ok(memory@, x_coord, current_scanline),
        ensures
            final(self).wf(),
            final(self).drawing_window == old(self).drawing_window,
            old(self).ticks == 0 ==> final(self).ticks == 1 && final(self).state == old(self).state
                && final(self).bg_fifo@ == old(self).bg_fifo@ && final(self).tile_x == old(self).tile_x,
            old(self).ticks == 1 ==> final(self).ticks == 0 && match old(self).state {
                FetcherState::GetTile => {
                    let (tile_x, ly, second) = old(self).fetch_target(memory@, x_coord, current_scanline, window_y);
                    &&& final(self).state == FetcherState::GetTileDataLow
                    &&& final(self).second_tile_map == second
                    &&& final(self).tile_id == memory@[(if second { 0x9C00int } else { 0x9800int }) + (ly
                        / 8) * 32 + tile_x]
                    &&& final(self).tile_line == ly % 8
                    &&& final(self).tile_x == old(self).tile_x + 1
                    &&& final(self).bg_fifo@ == old(self).bg_fifo@
                },
                FetcherState::GetTileDataLow => {
                    &&& final(self).state == FetcherState::GetTileDataHigh
                    &&& final(self).tile_data_low == memory@[tile_addr(memory@, old(self).tile_id) + old(
                        self,
                    ).tile_line * 2]
                    &&& final(self).bg_fifo@ == old(self).bg_fifo@
                },
                FetcherState::GetTileDataHigh => {
                    let high = memory@[tile_addr(memory@, old(self).tile_id) + old(self).tile_line * 2 + 1];
                    &&& final(self).state == FetcherState::Sleep
                    &&& final(self).tile_data_high == high
                    &&& final(self).bg_fifo@ == if old(self).bg_fifo@.len() <= 8 {
                        old(self).bg_fifo@ + pixel_row(old(self).tile_data_low, high)
                    } else {
                        old(self).bg_fifo@
                    }
                },
                FetcherState::Sleep => final(self).state == FetcherState::Push && final(self).bg_fifo@
                    == old(self).bg_fifo@,
                FetcherState::Push => if old(self).bg_fifo@.len() <= 8 {
                    final(self).state == FetcherState::GetTile && final(self).bg_fifo@ == old(self).bg_fifo@
                        + pixel_row(old(self).tile_data_low, old(self).tile_data_high)
                } else {
                    final(self).state == FetcherState::Push && final(self).bg_fifo@ == old(self).bg_fifo@
                },
            },
    {
        self.ticks += 1;
        if self.ticks < 2 {
            return;
        }
        self.ticks = 0;

        match self.state {
            FetcherState::GetTile => {
                self.ticks = 1;
                self.get_tile(memory, x_coord, current_scanline, window_y);
                self.ticks = 0;
                self.state = FetcherState::GetTileDataLow;
            },
            FetcherState::GetTileDataLow => {
                let start = self.tile_start(memory);
                self.tile_data_low = memory[start + self.tile_line as usize * 2];
                self.state = FetcherState::GetTileDataHigh;
            },
            FetcherState::GetTileDataHigh => {
                let start = self.tile_start(memory);
                self.tile_data_high = memory[start + self.tile_line as usize * 2 + 1];
                self.push();
                self.state = FetcherState::Sleep;
            },
            FetcherState::Sleep => self.state = FetcherState::Push,
            FetcherState::Push => {
                // A push is tried every other dot.
                if self.push() {
                    self.state = FetcherState::GetTile;
                }
            },
        }
    }
}

impl Default for PixelFetcher {
    fn default() -> (r: Self)
        ensures
            r.wf(),
            r.state == FetcherState::GetTile,
            !r.drawing_window,
            r.ticks == 0,
            r.bg_fifo@.len() == 0,
            r.tile_id == 0 && r.tile_line == 0 && r.tile_x == 0 && !r.second_tile_map,
            r.tile_data_low == 0 && r.tile_data_high == 0,
    {
        PixelFetcher {
            state: FetcherState::GetTile,
            drawing_window: false,
            ticks: 0,
            bg_fifo: VecDeque::with_capacity(16),
            tile_id: 0,
            tile_line: 0,
            tile_x: 0,
            second_tile_map: false,
            tile_data_low: 0,
            tile_data_high: 0,
        }
    }
}

} // verus!
