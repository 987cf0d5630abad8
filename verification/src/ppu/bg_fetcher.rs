//! The background/window pixel fetcher: fetches one row of a tile every few
//! dots and hands its pixels to the LCD through a FIFO.
use vstd::prelude::*;
use crate::bits::bit_of;
use crate::hw_constants::MEM_MAP_SIZE;
use crate::io_regs;
use crate::ppu::lcd_control::{self, lcdc_of};
use crate::ppu::palette::Palette;
use crate::ppu::tiles;

verus! {

#[derive(Copy, Clone, PartialEq, Eq, Structural, Debug)]
pub struct Pixel {
    pub low: bool,
    pub high: bool,
    pub palette: Palette,
    pub priority: bool,
}

#[derive(Copy, Clone, PartialEq, Eq, Structural, Debug)]
pub enum FetcherState {
    BeforeGetTile,
    GetTile,
    BeforeGetTileDataLow,
    GetTileDataLow,
    BeforeGetTileDataHigh,
    GetTileDataHigh,
    Push,
}

pub struct BackgroundFetcher {
    pub state: FetcherState,
    pub drawing_window: bool,
    pub warmup: bool,
    pub bg_fifo: Vec<Pixel>,
    pub tile_id: u8,
    pub tile_line: u8,
    pub tile_x: u8,
    pub tile_data_low: u8,
    pub tile_data_high: u8,
}

/// A background pixel with colour index 0 (transparent over objects).
pub open spec fn blank_bg_pixel() -> Pixel {
    Pixel { low: false, high: false, palette: Palette::BGP, priority: false }
}

/// The eight pixels of a tile row as they sit in the FIFO: element `i` holds
/// bit `i` of both bytes, so the leftmost pixel (bit 7) is shifted out first.
pub open spec fn bg_row(low: u8, high: u8) -> Seq<Pixel> {
    Seq::new(
        8,
        |i: int| Pixel { low: bit_of(low, i as u8), high: bit_of(high, i as u8), palette: Palette::BGP, priority: false },
    )
}

/// Tile number `id` read as a signed byte.
pub open spec fn signed_tile_id(id: u8) -> int {
    if id < 128 { id as int } else { id as int - 256 }
}

/// Address of the first byte of tile `id`, with unsigned (0x8000) or signed
/// (0x9000) addressing as LCDC bit 4 selects.
pub open spec fn tile_addr(memory: Seq<u8>, id: u8) -> int {
    if bit_of(lcdc_of(memory), 4) {
        0x8000 + id * 16
    } else {
        0x9000 + signed_tile_id(id) * 16
    }
}

/// Column of the tile map that the next fetch reads.
pub open spec fn fetch_tile_x(f: BackgroundFetcher, memory: Seq<u8>) -> int {
    if f.drawing_window {
        f.tile_x as int
    } else {
        (memory[io_regs::SCX as int] / 8 + f.tile_x) % 32
    }
}

/// Row of the background or window (in pixels) that the next fetch reads.
pub open spec fn fetch_line(f: BackgroundFetcher, memory: Seq<u8>, scanline: u8, window_y: u8) -> int {
    if f.drawing_window {
        window_y as int
    } else {
        (scanline + memory[io_regs::SCY as int]) % 256
    }
}

/// Base address of the tile map the next fetch reads (LCDC bit 6 for the
/// window, bit 3 for the background).
pub open spec fn fetch_map_base(f: BackgroundFetcher, memory: Seq<u8>) -> int {
    let second = if f.drawing_window {
        bit_of(lcdc_of(memory), 6)
    } else {
        bit_of(lcdc_of(memory), 3)
    };
    if second { 0x9C00 } else { 0x9800 }
}

/// The tile-map index a fetch reads is within the 32x32 map.
pub open spec fn fetch_in_map(f: BackgroundFetcher, memory: Seq<u8>, scanline: u8, window_y: u8) -> bool {
    (fetch_line(f, memory, scanline, window_y) / 8) * 32 + fetch_tile_x(f, memory) < 1024
}

impl BackgroundFetcher {
    /// The fetcher as a line starts: about to fetch the first tile, with an
    /// empty FIFO and the warm-up fetch still ahead.
    pub open spec fn is_reset(self) -> bool {
        &&& self.state == FetcherState::BeforeGetTile
        &&& !self.drawing_window
        &&& self.warmup
        &&& self.bg_fifo@.len() == 0
        &&& self.tile_id == 0 && self.tile_line == 0 && self.tile_x == 0
        &&& self.tile_data_low == 0 && self.tile_data_high == 0
    }

    /// The fetcher as the window starts: like a reset one, but fetching the
    /// window without a warm-up.
    pub open spec fn is_window_start(self) -> bool {
        &&& self.state == FetcherState::BeforeGetTile
        &&& self.drawing_window
        &&& !self.warmup
        &&& self.bg_fifo@.len() == 0
        &&& self.tile_id == 0 && self.tile_line == 0 && self.tile_x == 0
        &&& self.tile_data_low == 0 && self.tile_data_high == 0
    }

    /// Equal field by field (the FIFOs by their contents).
    pub open spec fn same_as(self, other: Self) -> bool {
        self.state == other.state && self.fields_but_state_unchanged(other)
    }

    pub open spec fn fields_but_state_unchanged(self, before: Self) -> bool {
        &&& self.drawing_window == before.drawing_window
        &&& self.warmup == before.warmup
        &&& self.bg_fifo@ == before.bg_fifo@
        &&& self.tile_id == before.tile_id
        &&& self.tile_line == before.tile_line
        &&& self.tile_x == before.tile_x
        &&& self.tile_data_low == before.tile_data_low
        &&& self.tile_data_high == before.tile_data_high
    }


    /// Shift out a pixel from the background FIFO (its last element).
    pub fn shift_out(&mut self) -> (r: Option<Pixel>)
        ensures
            old(self).bg_fifo@.len() == 0 ==> r is None && final(self).bg_fifo@ == old(self).bg_fifo@,
            old(self).bg_fifo@.len() > 0 ==> r == Some(old(self).bg_fifo@.last())
                && final(self).bg_fifo@ == old(self).bg_fifo@.drop_last(),
            final(self).state == old(self).state,
            final(self).fields_but_fifo_unchanged(*old(self)),
    {
        self.bg_fifo.pop()
    }

    pub open spec fn fields_but_fifo_unchanged(self, before: Self) -> bool {
        &&& self.drawing_window == before.drawing_window
        &&& self.warmup == before.warmup
        &&& self.tile_id == before.tile_id
        &&& self.tile_line == before.tile_line
        &&& self.tile_x == before.tile_x
        &&& self.tile_data_low == before.tile_data_low
        &&& self.tile_data_high == before.tile_data_high
    }

    /// Push a row of 8 pixels from a tile to the background FIFO, if it's empty.
    fn push(&mut self) -> (r: bool)
        ensures
            r == (old(self).bg_fifo@.len() == 0),
            r ==> final(self).bg_fifo@ == bg_row(old(self).tile_data_low, old(self).tile_data_high),
            r ==> final(self).tile_x == old(self).tile_x.wrapping_add(1),
            !r ==> final(self).bg_fifo@ == old(self).bg_fifo@ && final(self).tile_x == old(self).tile_x,
            final(self).state == old(self).state,
            final(self).drawing_window == old(self).drawing_window,
            final(self).warmup == old(self).warmup,
            final(self).tile_id == old(self).tile_id,
            final(self).tile_line == old(self).tile_line,
            final(self).tile_data_low == old(self).tile_data_low,
            final(self).tile_data_high == old(self).tile_data_high,
    {
        if !self.bg_fifo.is_empty() {
            return false;
        }
        let mut nth_bit: u8 = 0;
        while nth_bit < 8
            invariant
                nth_bit <= 8,
                self.bg_fifo@.len() == nth_bit,
                forall|i: int| 0 <= i < nth_bit ==> self.bg_fifo@[i] == #[trigger] bg_row(
                    self.tile_data_low,
                    self.tile_data_high,
                )[i],
                self.state == old(self).state,
                self.drawing_window == old(self).drawing_window,
                self.warmup == old(self).warmup,
                self.tile_id == old(self).tile_id,
                self.tile_line == old(self).tile_line,
                self.tile_x == old(self).tile_x,
                self.tile_data_low == old(self).tile_data_low,
                self.tile_data_high == old(self).tile_data_high,
            decreases 8 - nth_bit,
        {
            let pixel = Pixel {
                low: (self.tile_data_low >> nth_bit) & 1 == 1,
                high: (self.tile_data_high >> nth_bit) & 1 == 1,
                palette: Palette::BGP,
                priority: false,
            };
            self.bg_fifo.push(pixel);
            nth_bit += 1;
        }
        assert(self.bg_fifo@ =~= bg_row(self.tile_data_low, self.tile_data_high));
        self.tile_x = self.tile_x.wrapping_add(1);
        true
    }

    #[verifier::rlimit(40)]
    fn get_tile(&mut self, memory: &[u8], current_scanline: u8, window_y: u8)
        requires
            memory@.len() == MEM_MAP_SIZE,
            fetch_in_map(*old(self), memory@, current_scanline, window_y),
        ensures
            final(self).tile_id == memory@[fetch_map_base(*old(self), memory@) + (fetch_line(
                *old(self),
                memory@,
                current_scanline,
                window_y,
            ) / 8) * 32 + fetch_tile_x(*old(self), memory@)],
            final(self).tile_line == fetch_line(*old(self), memory@, current_scanline, window_y) % 8,
            final(self).state == old(self).state,
            final(self).drawing_window == old(self).drawing_window,
            final(self).warmup == old(self).warmup,
            final(self).bg_fifo@ == old(self).bg_fifo@,
            final(self).tile_x == old(self).tile_x,
            final(self).tile_data_low == old(self).tile_data_low,
            final(self).tile_data_high == old(self).tile_data_high,
    {
        let bg_second_tile_map = lcd_control::bg_tile_map(memory) && !self.drawing_window;
        let window_second_tile_map = lcd_control::window_tile_map(memory) && self.drawing_window;
        let second_tile_map = bg_second_tile_map || window_second_tile_map;

        let tile_x: u8 = if self.drawing_window {
            self.tile_x
        } else {
            let scx = memory[io_regs::SCX as usize];
            let sum = (scx / 8).wrapping_add(self.tile_x);
            let tx = sum & 0x1F;
            let a = scx / 8;
            let b = self.tile_x;
            assert(tx as int == (a + b) % 32) by (bit_vector)
                requires
                    tx == a.wrapping_add(b) & 0x1Fu8;
            tx
        };

        let ly: u8 = if self.drawing_window {
            window_y
        } else {
            current_scanline.wrapping_add(memory[io_regs::SCY as usize])
        };
        let tile_y = ly / 8;
        assert(ly as int == fetch_line(*old(self), memory@, current_scanline, window_y));
        assert(tile_x as int == fetch_tile_x(*old(self), memory@));
        let index = tile_y as usize * 32 + tile_x as usize;

        let tile_map = if second_tile_map {
            tiles::tile_map_1(memory)
        } else {
            tiles::tile_map_0(memory)
        };

        self.tile_id = tile_map[index];
        self.tile_line = ly % 8;
    }

    /// The address of the current tile's first byte.
    fn current_tile_start(&self, memory: &[u8]) -> (r: usize)
        requires
            memory@.len() == MEM_MAP_SIZE,
        ensures
            r == tile_addr(memory@, self.tile_id),
            r + 16 <= 0x9800,
    {
        if lcd_control::bg_and_window_tiles(memory) {
            0x8000 + self.tile_id as usize * 16
        } else if self.tile_id < 128 {
            0x9000 + self.tile_id as usize * 16
        } else {
            0x9000 - (256 - self.tile_id as usize) * 16
        }
    }

    fn get_tile_data_low(&mut self, memory: &[u8])
        requires
            memory@.len() == MEM_MAP_SIZE,
            old(self).tile_line < 8,
        ensures
            final(self).tile_data_low == memory@[tile_addr(memory@, old(self).tile_id) + old(self).tile_line * 2],
            final(self).state == old(self).state,
            final(self).drawing_window == old(self).drawing_window,
            final(self).warmup == old(self).warmup,
            final(self).bg_fifo@ == old(self).bg_fifo@,
            final(self).tile_id == old(self).tile_id,
            final(self).tile_line == old(self).tile_line,
            final(self).tile_x == old(self).tile_x,
            final(self).tile_data_high == old(self).tile_data_high,
    {
        let start = self.current_tile_start(memory);
        self.tile_data_low = memory[start + self.tile_line as usize * 2];
    }

    fn get_tile_data_high(&mut self, memory: &[u8])
        requires
            memory@.len() == MEM_MAP_SIZE,
            old(self).tile_line < 8,
        ensures
            final(self).tile_data_high == memory@[tile_addr(memory@, old(self).tile_id) + old(self).tile_line * 2 + 1],
            final(self).state == old(self).state,
            final(self).drawing_window == old(self).drawing_window,
            final(self).warmup == old(self).warmup,
            final(self).bg_fifo@ == old(self).bg_fifo@,
            final(self).tile_id == old(self).tile_id,
            final(self).tile_line == old(self).tile_line,
            final(self).tile_x == old(self).tile_x,
            final(self).tile_data_low == old(self).tile_data_low,
    {
        let start = self.current_tile_start(memory);
        self.tile_data_high = memory[start + self.tile_line as usize * 2 + 1];
    }

    pub open spec fn wf(self) -> bool {
        self.tile_line < 8
    }

    /// What `tick` needs: a full memory map, and for a tile-map fetch an index
    /// inside the map.
    pub open spec fn tick_ok(self, memory: Seq<u8>, current_scanline: u8, window_y: u8) -> bool {
        &&& self.wf()
        &&& memory.len() == MEM_MAP_SIZE
        &&& self.state == FetcherState::GetTile ==> fetch_in_map(self, memory, current_scanline, window_y)
    }

    /// Whether the tile-map read of the next fetch, if this dot makes one,
    /// stays within the map.
    pub fn fetch_index_in_map(&self, memory: &[u8], current_scanline: u8, window_y: u8) -> (r: bool)
        requires
            memory@.len() == MEM_MAP_SIZE,
        ensures
            r == (self.state == FetcherState::GetTile ==> fetch_in_map(*self, memory@, current_scanline, window_y)),
    {
        if self.state != FetcherState::GetTile {
            return true;
        }
        let line: u16 = if self.drawing_window {
            window_y as u16
        } else {
            (current_scanline as u16 + memory[io_regs::SCY as usize] as u16) % 256
        };
        let tile_x: u16 = if self.drawing_window {
            self.tile_x as u16
        } else {
            (memory[io_regs::SCX as usize] as u16 / 8 + self.tile_x as u16) % 32
        };
        (line / 8) * 32 + tile_x < 1024
    }

    /// One dot of the fetcher: `n` is the fetcher after it, `o` before it.
    pub open spec fn ticked(o: Self, n: Self, memory: Seq<u8>, current_scanline: u8, window_y: u8) -> bool {
        &&& n.wf()
        &&& match o.state {
            FetcherState::BeforeGetTile => n.state == FetcherState::GetTile
                && n.fields_but_state_unchanged(o),
            FetcherState::GetTile => {
                &&& n.state == FetcherState::BeforeGetTileDataLow
                &&& n.tile_id == memory[fetch_map_base(o, memory) + (fetch_line(
                    o,
                    memory,
                    current_scanline,
                    window_y,
                ) / 8) * 32 + fetch_tile_x(o, memory)]
                &&& n.tile_line == fetch_line(o, memory, current_scanline, window_y) % 8
                &&& n.drawing_window == o.drawing_window && n.warmup == o.warmup
                &&& n.bg_fifo@ == o.bg_fifo@ && n.tile_x == o.tile_x
                &&& n.tile_data_low == o.tile_data_low && n.tile_data_high == o.tile_data_high
            },
            FetcherState::BeforeGetTileDataLow => n.state == FetcherState::GetTileDataLow
                && n.fields_but_state_unchanged(o),
            FetcherState::GetTileDataLow => {
                &&& n.state == FetcherState::BeforeGetTileDataHigh
                &&& n.tile_data_low == memory[tile_addr(memory, o.tile_id) + o.tile_line * 2]
                &&& n.drawing_window == o.drawing_window && n.warmup == o.warmup
                &&& n.bg_fifo@ == o.bg_fifo@ && n.tile_x == o.tile_x
                &&& n.tile_id == o.tile_id && n.tile_line == o.tile_line
                &&& n.tile_data_high == o.tile_data_high
            },
            FetcherState::BeforeGetTileDataHigh => if o.warmup {
                &&& n.state == FetcherState::BeforeGetTile
                &&& !n.warmup
                &&& n.bg_fifo@ == o.bg_fifo@ + Seq::new(8, |i: int| blank_bg_pixel())
                &&& n.drawing_window == o.drawing_window
                &&& n.tile_id == o.tile_id && n.tile_line == o.tile_line && n.tile_x == o.tile_x
                &&& n.tile_data_low == o.tile_data_low && n.tile_data_high == o.tile_data_high
            } else {
                n.state == FetcherState::GetTileDataHigh && n.fields_but_state_unchanged(o)
            },
            FetcherState::GetTileDataHigh => {
                &&& n.state == FetcherState::Push
                &&& n.tile_data_high == memory[tile_addr(memory, o.tile_id) + o.tile_line * 2
                    + 1]
                &&& n.drawing_window == o.drawing_window && n.warmup == o.warmup
                &&& n.bg_fifo@ == o.bg_fifo@ && n.tile_x == o.tile_x
                &&& n.tile_id == o.tile_id && n.tile_line == o.tile_line
                &&& n.tile_data_low == o.tile_data_low
            },
            FetcherState::Push => if o.bg_fifo@.len() == 0 {
                &&& n.state == FetcherState::BeforeGetTile
                &&& n.bg_fifo@ == bg_row(o.tile_data_low, o.tile_data_high)
                &&& n.tile_x == o.tile_x.wrapping_add(1)
                &&& n.drawing_window == o.drawing_window && n.warmup == o.warmup
                &&& n.tile_id == o.tile_id && n.tile_line == o.tile_line
                &&& n.tile_data_low == o.tile_data_low && n.tile_data_high == o.tile_data_high
            } else {
                n.state == FetcherState::Push && n.fields_but_state_unchanged(o)
            },
        }
    }

    /// Advance the fetcher by one dot.
    pub fn tick(&mut self, memory: &[u8], current_scanline: u8, window_y: u8)
        requires
            old(self).tick_ok(memory@, current_scanline, window_y),
        ensures
            Self::ticked(*old(self), *final(self), memory@, current_scanline, window_y),
    {
        match self.state {
            FetcherState::BeforeGetTile => {
                self.state = FetcherState::GetTile;
            },
            FetcherState::GetTile => {
                self.get_tile(memory, current_scanline, window_y);
                self.state = FetcherState::BeforeGetTileDataLow;
            },
            FetcherState::BeforeGetTileDataLow => {
                self.state = FetcherState::GetTileDataLow;
            },
            FetcherState::GetTileDataLow => {
                self.get_tile_data_low(memory);
                self.state = FetcherState::BeforeGetTileDataHigh;
            },
            FetcherState::BeforeGetTileDataHigh => {
                if self.warmup {
                    // First fetch of the line. Restart and waste six cycles.
                    self.warmup = false;
                    // Fill the FIFO with 8 transparent pixels for overscan.
                    let mut i: usize = 0;
                    while i < 8
                        invariant
                            i <= 8,
                            self.bg_fifo@ == old(self).bg_fifo@ + Seq::new(i as nat, |k: int| blank_bg_pixel()),
                            self.state == old(self).state,
                            !self.warmup,
                            self.drawing_window == old(self).drawing_window,
                            self.tile_id == old(self).tile_id,
                            self.tile_line == old(self).tile_line,
                            self.tile_x == old(self).tile_x,
                            self.tile_data_low == old(self).tile_data_low,
                            self.tile_data_high == old(self).tile_data_high,
                        decreases 8 - i,
                    {
                        let pixel = Pixel { low: false, high: false, palette: Palette::BGP, priority: false };
                        self.bg_fifo.push(pixel);
                        proof {
                            assert(old(self).bg_fifo@ + Seq::new((i + 1) as nat, |k: int| blank_bg_pixel())
                                =~= (old(self).bg_fifo@ + Seq::new(i as nat, |k: int| blank_bg_pixel())).push(pixel));
                        }
                        i += 1;
                    }
                    self.state = FetcherState::BeforeGetTile;
                } else {
                    self.state = FetcherState::GetTileDataHigh;
                }
            },
            FetcherState::GetTileDataHigh => {
                self.get_tile_data_high(memory);
                self.state = FetcherState::Push;
            },
            FetcherState::Push => {
                if self.push() {
                    self.state = FetcherState::BeforeGetTile;
                } else {
                    self.state = FetcherState::Push;
                }
            },
        }
    }
}

impl Default for BackgroundFetcher {
    fn default() -> (r: Self)
        ensures
            r.is_reset(),
    {
        BackgroundFetcher {
            state: FetcherState::BeforeGetTile,
            drawing_window: false,
            warmup: true,
            bg_fifo: Vec::with_capacity(8),
            tile_id: 0,
            tile_line: 0,
            tile_x: 0,
            tile_data_low: 0,
            tile_data_high: 0,
        }
    }
}

} // verus!
