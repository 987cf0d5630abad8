//! The background/window fetcher over video RAM: every two dots it takes one
//! step of reading a tile number, then the two bytes of the tile's row, and
//! pushes the row's eight pixels into its FIFO when the FIFO is empty.
use vstd::prelude::*;
use crate::bits::bit_of;
use crate::interpreter::ppu::registers::{LcdControl, PaletteSelect};

verus! {

pub const VRAM_SIZE: usize = 0x2000;

/// The two bits of a pixel's colour number.
#[derive(Clone, Copy, PartialEq, Eq, Structural, Debug)]
pub struct ColorIndex {
    pub high: bool,
    pub low: bool,
}

#[derive(Clone, Copy, PartialEq, Eq, Structural, Debug)]
pub struct Pixel {
    pub priority: bool,
    pub palette: PaletteSelect,
    pub color_index: ColorIndex,
}

#[derive(Clone, Copy, PartialEq, Eq, Structural, Debug)]
pub enum FetcherState {
    BeforeGetTile,
    GetTile,
    BeforeGetTileDataLow,
    GetTileDataLow,
    BeforeGetTileDataHigh,
    GetTileDataHigh,
    Push,
}

pub struct BackgroundFetcher {
    pub state: FetcherState,
    pub drawing_window: bool,
    pub warmup: bool,
    pub bg_fifo: Vec<Pixel>,
    pub tile_id: u8,
    pub tile_line: u8,
    pub tile_x: u8,
    pub tile_data_low: u8,
    pub tile_data_high: u8,
}

/// A background pixel of colour 0 through BGP.
pub open spec fn blank_pixel() -> Pixel {
    Pixel {
        priority: false,
        palette: PaletteSelect::Bgp,
        color_index: ColorIndex { high: false, low: false },
    }
}

/// The eight pixels of a tile row as they sit in the FIFO: element `i` holds
/// bit `i` of both bytes, so the leftmost pixel (bit 7) is shifted out first.
pub open spec fn tile_row(low: u8, high: u8) -> Seq<Pixel> {
    Seq::new(
        8,
        |i: int|
            Pixel {
                priority: false,
                palette: PaletteSelect::Bgp,
                color_index: ColorIndex { high: bit_of(high, i as u8), low: bit_of(low, i as u8) },
            },
    )
}

/// Offset in video RAM of the first byte of tile `id`: unsigned from 0x8000
/// or signed around 0x9000, as LCDC bit 4 selects.
pub open spec fn tile_offset(lcdc: LcdControl, id: u8) -> int {
    if bit_of(lcdc.bits, 4) {
        id * 16
    } else if id < 128 {
        0x1000 + id * 16
    } else {
        0x1000 + (id - 256) * 16
    }
}

impl BackgroundFetcher {
    pub open spec fn tile_id_spec(self) -> u8 {
        self.tile_id
    }

    pub open spec fn tile_line_spec(self) -> u8 {
        self.tile_line
    }

    pub open spec fn tile_x_spec(self) -> u8 {
        self.tile_x
    }

    pub open spec fn tile_data_low_spec(self) -> u8 {
        self.tile_data_low
    }

    pub open spec fn tile_data_high_spec(self) -> u8 {
        self.tile_data_high
    }

    pub open spec fn wf(self) -> bool {
        self.tile_line < 8
    }

    /// Column of the tile map that the next fetch reads.
    pub open spec fn fetch_tile_x(self, scx: u8) -> int {
        if self.drawing_window {
            self.tile_x_spec() as int
        } else {
            (scx / 8 + self.tile_x_spec()) % 32
        }
    }

    /// Row of the background or window, in pixels, that the next fetch reads.
    pub open spec fn fetch_line(self, scy: u8, current_scanline: u8, window_y: u8) -> int {
        if self.drawing_window {
            window_y as int
        } else {
            (current_scanline + scy) % 256
        }
    }

    /// Offset in video RAM of the tile map the next fetch reads.
    pub open spec fn fetch_map_offset(self, lcdc: LcdControl) -> int {
        let second = if self.drawing_window {
            bit_of(lcdc.bits, 6)
        } else {
            bit_of(lcdc.bits, 3)
        };
        if second {
            0x1C00
        } else {
            0x1800
        }
    }

    /// Index within the 32x32 tile map that the next fetch reads.
    pub open spec fn fetch_index(self, scx: u8, scy: u8, current_scanline: u8, window_y: u8) -> int {
        (self.fetch_line(scy, current_scanline, window_y) / 8) * 32 + self.fetch_tile_x(scx)
    }

    /// Every field but the FIFO and the state is as in `before`.
    pub open spec fn same_tile(self, before: Self) -> bool {
        &&& self.drawing_window == before.drawing_window
        &&& self.warmup == before.warmup
        &&& self.tile_id_spec() == before.tile_id_spec()
        &&& self.tile_line_spec() == before.tile_line_spec()
        &&& self.tile_x_spec() == before.tile_x_spec()
        &&& self.tile_data_low_spec() == before.tile_data_low_spec()
        &&& self.tile_data_high_spec() == before.tile_data_high_spec()
    }

    /// Start a new line: first state, no window, warm-up pending, FIFO empty
    /// and the tile registers cleared.
    pub fn reset(&mut self)
        ensures
            final(self).wf(),
            final(self).state == FetcherState::BeforeGetTile,
            !final(self).drawing_window,
            final(self).warmup,
            final(self).bg_fifo@.len() == 0,
            final(self).tile_id_spec() == 0 && final(self).tile_line_spec() == 0
                && final(self).tile_x_spec() == 0,
            final(self).tile_data_low_spec() == 0 && final(self).tile_data_high_spec() == 0,
    {
        self.state = FetcherState::BeforeGetTile;
        self.drawing_window = false;
        self.warmup = true;
        self.bg_fifo.clear();
        self.tile_id = 0;
        self.tile_line = 0;
        self.tile_x = 0;
        self.tile_data_low = 0;
        self.tile_data_high = 0;
    }

    /// Shift out a pixel from the background FIFO (its last element).
    pub fn shift_out(&mut self) -> (r: Option<Pixel>)
        ensures
            old(self).bg_fifo@.len() == 0 ==> r is None && final(self).bg_fifo@ == old(self).bg_fifo@,
            old(self).bg_fifo@.len() > 0 ==> r == Some(old(self).bg_fifo@.last()) && final(self).bg_fifo@ == old(self).bg_fifo@.drop_last(),
            final(self).state == old(self).state,
            final(self).same_tile(*old(self)),
            final(self).wf() == old(self).wf(),
    {
        self.bg_fifo.pop()
    }

    /// Push a row of 8 pixels from a tile to the background FIFO, if it is empty.
    fn push(&mut self) -> (r: bool)
        ensures
            r == (old(self).bg_fifo@.len() == 0),
            r ==> final(self).bg_fifo@ == tile_row(old(self).tile_data_low, old(self).tile_data_high),
            r ==> final(self).tile_x == old(self).tile_x.wrapping_add(1),
            !r ==> final(self).bg_fifo@ == old(self).bg_fifo@ && final(self).tile_x == old(self).tile_x,
            final(self).state == old(self).state,
            final(self).drawing_window == old(self).drawing_window,
            final(self).warmup == old(self).warmup,
            final(self).tile_id == old(self).tile_id,
            final(self).tile_line == old(self).tile_line,
            final(self).tile_data_low == old(self).tile_data_low,
            final(self).tile_data_high == old(self).tile_data_high,
    {
        if !self.bg_fifo.is_empty() {
            return false;
        }
        let mut nth_bit: u8 = 0;
        while nth_bit < 8
            invariant
                nth_bit <= 8,
                self.bg_fifo@.len() == nth_bit,
                forall|i: int|
                    0 <= i < nth_bit ==> self.bg_fifo@[i] == #[trigger] tile_row(
                        self.tile_data_low,
                        self.tile_data_high,
                    )[i],
                self.state == old(self).state,
                self.drawing_window == old(self).drawing_window,
                self.warmup == old(self).warmup,
                self.tile_id == old(self).tile_id,
                self.tile_line == old(self).tile_line,
                self.tile_x == old(self).tile_x,
                self.tile_data_low == old(self).tile_data_low,
                self.tile_data_high == old(self).tile_data_high,
            decreases 8 - nth_bit,
        {
            let pixel = Pixel {
                priority: false,
                palette: PaletteSelect::Bgp,
                color_index: ColorIndex {
                    low: (self.tile_data_low >> nth_bit) & 1 == 1,
                    high: (self.tile_data_high >> nth_bit) & 1 == 1,
                },
            };
            self.bg_fifo.push(pixel);
            nth_bit += 1;
        }
        assert(self.bg_fifo@ =~= tile_row(self.tile_data_low, self.tile_data_high));
        self.tile_x = self.tile_x.wrapping_add(1);
        true
    }

    #[verifier::rlimit(40)]
    fn get_tile(
        &mut self,
        vram: &[u8],
        lcdc: LcdControl,
        scx: u8,
        scy: u8,
        current_scanline: u8,
        window_y: u8,
    )
        requires
            vram@.len() == VRAM_SIZE,
            old(self).fetch_index(scx, scy, current_scanline, window_y) < 1024,
        ensures
            final(self).tile_id == vram@[old(self).fetch_map_offset(lcdc) + old(self).fetch_index(
                scx,
                scy,
                current_scanline,
                window_y,
            )],
            final(self).tile_line == old(self).fetch_line(scy, current_scanline, window_y) % 8,
            final(self).state == old(self).state,
            final(self).drawing_window == old(self).drawing_window,
            final(self).warmup == old(self).warmup,
            final(self).bg_fifo@ == old(self).bg_fifo@,
            final(self).tile_x == old(self).tile_x,
            final(self).tile_data_low == old(self).tile_data_low,
            final(self).tile_data_high == old(self).tile_data_high,
    {
        let bg_second_tile_map = lcdc.bg_tile_map() && !self.drawing_window;
        let window_second_tile_map = lcdc.window_tile_map() && self.drawing_window;
        let second_tile_map = bg_second_tile_map || window_second_tile_map;

        let tile_x: u16 = if self.drawing_window {
            self.tile_x as u16
        } else {
            ((scx / 8) as u16 + self.tile_x as u16) % 32
        };
        let ly: u8 = if self.drawing_window {
            window_y
        } else {
            current_scanline.wrapping_add(scy)
        };
        let tile_y = ly / 8;
        let map_offset: usize = if second_tile_map {
            0x1C00
        } else {
            0x1800
        };
        assert(ly as int == old(self).fetch_line(scy, current_scanline, window_y));
        assert(tile_x as int == old(self).fetch_tile_x(scx));
        assert(map_offset as int == old(self).fetch_map_offset(lcdc));
        let index = tile_y as usize * 32 + tile_x as usize;
        assert(index as int == old(self).fetch_index(scx, scy, current_scanline, window_y));
        self.tile_id = vram[map_offset + index];
        self.tile_line = ly % 8;
    }

    /// The offset in video RAM of the current tile's first byte.
    fn current_tile(&self, lcdc: LcdControl) -> (r: usize)
        ensures
            r == tile_offset(lcdc, self.tile_id),
            r + 16 <= 0x1800,
    {
        if lcdc.bg_and_window_tiles() {
            self.tile_id as usize * 16
        } else if self.tile_id < 128 {
            0x1000 + self.tile_id as usize * 16
        } else {
            0x1000 - (256 - self.tile_id as usize) * 16
        }
    }

    fn get_tile_data_low(&mut self, vram: &[u8], lcdc: LcdControl)
        requires
            vram@.len() == VRAM_SIZE,
            old(self).tile_line < 8,
        ensures
            final(self).tile_data_low == vram@[tile_offset(lcdc, old(self).tile_id) + old(self).tile_line * 2],
            final(self).state == old(self).state,
            final(self).drawing_window == old(self).drawing_window,
            final(self).warmup == old(self).warmup,
            final(self).bg_fifo@ == old(self).bg_fifo@,
            final(self).tile_id == old(self).tile_id,
            final(self).tile_line == old(self).tile_line,
            final(self).tile_x == old(self).tile_x,
            final(self).tile_data_high == old(self).tile_data_high,
    {
        let tile = self.current_tile(lcdc);
        self.tile_data_low = vram[tile + self.tile_line as usize * 2];
    }

    fn get_tile_data_high(&mut self, vram: &[u8], lcdc: LcdControl)
        requires
            vram@.len() == VRAM_SIZE,
            old(self).tile_line < 8,
        ensures
            final(self).tile_data_high == vram@[tile_offset(lcdc, old(self).tile_id) + old(self).tile_line * 2 + 1],
            final(self).state == old(self).state,
            final(self).drawing_window == old(self).drawing_window,
            final(self).warmup == old(self).warmup,
            final(self).bg_fifo@ == old(self).bg_fifo@,
            final(self).tile_id == old(self).tile_id,
            final(self).tile_line == old(self).tile_line,
            final(self).tile_x == old(self).tile_x,
            final(self).tile_data_low == old(self).tile_data_low,
    {
        let tile = self.current_tile(lcdc);
        self.tile_data_high = vram[tile + self.tile_line as usize * 2 + 1];
    }

    /// Advance the fetcher by one step. A tile-map read must stay within the
    /// 32x32 map (a window column past it has no tile).
    pub fn tick(
        &mut self,
        vram: &[u8],
        lcdc: LcdControl,
        scx: u8,
        scy: u8,
        current_scanline: u8,
        window_y: u8,
    )
        requires
            old(self).wf(),
            vram@.len() == VRAM_SIZE,
            old(self).state == FetcherState::GetTile ==> old(self).fetch_index(
                scx,
                scy,
                current_scanline,
                window_y,
            ) < 1024,
        ensures
            final(self).wf(),
            ({
                let o = *old(self);
                let n = *final(self);
                match o.state {
                    FetcherState::BeforeGetTile => n.state == FetcherState::GetTile && n.same_tile(o)
                        && n.bg_fifo@ == o.bg_fifo@,
                    FetcherState::GetTile => {
                        &&& n.state == FetcherState::BeforeGetTileDataLow
                        &&& n.tile_id_spec() == vram@[o.fetch_map_offset(lcdc) + o.fetch_index(
                            scx,
                            scy,
                            current_scanline,
                            window_y,
                        )]
                        &&& n.tile_line_spec() == o.fetch_line(scy, current_scanline, window_y) % 8
                        &&& n.drawing_window == o.drawing_window && n.warmup == o.warmup
                        &&& n.bg_fifo@ == o.bg_fifo@ && n.tile_x_spec() == o.tile_x_spec()
                        &&& n.tile_data_low_spec() == o.tile_data_low_spec()
                        &&& n.tile_data_high_spec() == o.tile_data_high_spec()
                    },
                    FetcherState::BeforeGetTileDataLow => n.state == FetcherState::GetTileDataLow
                        && n.same_tile(o) && n.bg_fifo@ == o.bg_fifo@,
                    FetcherState::GetTileDataLow => {
                        &&& n.state == FetcherState::BeforeGetTileDataHigh
                        &&& n.tile_data_low_spec() == vram@[tile_offset(lcdc, o.tile_id_spec())
                            + o.tile_line_spec() * 2]
                        &&& n.drawing_window == o.drawing_window && n.warmup == o.warmup
                        &&& n.bg_fifo@ == o.bg_fifo@ && n.tile_x_spec() == o.tile_x_spec()
                        &&& n.tile_id_spec() == o.tile_id_spec()
                        &&& n.tile_line_spec() == o.tile_line_spec()
                        &&& n.tile_data_high_spec() == o.tile_data_high_spec()
                    },
                    FetcherState::BeforeGetTileDataHigh => if o.warmup {
                        // The first fetch of a line restarts, after filling the
                        // FIFO with eight blank pixels.
                        &&& n.state == FetcherState::BeforeGetTile
                        &&& !n.warmup
                        &&& n.bg_fifo@ == o.bg_fifo@ + Seq::new(8, |i: int| blank_pixel())
                        &&& n.drawing_window == o.drawing_window
                        &&& n.tile_id_spec() == o.tile_id_spec()
                        &&& n.tile_line_spec() == o.tile_line_spec()
                        &&& n.tile_x_spec() == o.tile_x_spec()
                        &&& n.tile_data_low_spec() == o.tile_data_low_spec()
                        &&& n.tile_data_high_spec() == o.tile_data_high_spec()
                    } else {
                        n.state == FetcherState::GetTileDataHigh && n.same_tile(o) && n.bg_fifo@
                            == o.bg_fifo@
                    },
                    FetcherState::GetTileDataHigh => {
                        &&& n.state == FetcherState::Push
                        &&& n.tile_data_high_spec() == vram@[tile_offset(lcdc, o.tile_id_spec())
                            + o.tile_line_spec() * 2 + 1]
                        &&& n.drawing_window == o.drawing_window && n.warmup == o.warmup
                        &&& n.bg_fifo@ == o.bg_fifo@ && n.tile_x_spec() == o.tile_x_spec()
                        &&& n.tile_id_spec() == o.tile_id_spec()
                        &&& n.tile_line_spec() == o.tile_line_spec()
                        &&& n.tile_data_low_spec() == o.tile_data_low_spec()
                    },
                    FetcherState::Push => if o.bg_fifo@.len() == 0 {
                        &&& n.state == FetcherState::BeforeGetTile
                        &&& n.bg_fifo@ == tile_row(o.tile_data_low_spec(), o.tile_data_high_spec())
                        &&& n.tile_x_spec() == o.tile_x_spec().wrapping_add(1)
                        &&& n.drawing_window == o.drawing_window && n.warmup == o.warmup
                        &&& n.tile_id_spec() == o.tile_id_spec()
                        &&& n.tile_line_spec() == o.tile_line_spec()
                        &&& n.tile_data_low_spec() == o.tile_data_low_spec()
                        &&& n.tile_data_high_spec() == o.tile_data_high_spec()
                    } else {
                        n.state == FetcherState::Push && n.same_tile(o) && n.bg_fifo@ == o.bg_fifo@
                    },
                }
            }),
    {
        match self.state {
            FetcherState::BeforeGetTile => {
                self.state = FetcherState::GetTile;
            },
            FetcherState::GetTile => {
                self.get_tile(vram, lcdc, scx, scy, current_scanline, window_y);
                self.state = FetcherState::BeforeGetTileDataLow;
            },
            FetcherState::BeforeGetTileDataLow => {
                self.state = FetcherState::GetTileDataLow;
            },
            FetcherState::GetTileDataLow => {
                self.get_tile_data_low(vram, lcdc);
                self.state = FetcherState::BeforeGetTileDataHigh;
            },
            FetcherState::BeforeGetTileDataHigh => {
                if self.warmup {
                    // First fetch of the line. Restart and waste six cycles.
                    self.warmup = false;
                    // Fill the FIFO with 8 transparent pixels for overscan.
                    let mut i: usize = 0;
                    while i < 8
                        invariant
                            i <= 8,
                            self.bg_fifo@ == old(self).bg_fifo@ + Seq::new(
                                i as nat,
                                |k: int| blank_pixel(),
                            ),
                            self.state == old(self).state,
                            !self.warmup,
                            self.drawing_window == old(self).drawing_window,
                            self.tile_id == old(self).tile_id,
                            self.tile_line == old(self).tile_line,
                            self.tile_x == old(self).tile_x,
                            self.tile_data_low == old(self).tile_data_low,
                            self.tile_data_high == old(self).tile_data_high,
                        decreases 8 - i,
                    {
                        let pixel = Pixel {
                            priority: false,
                            palette: PaletteSelect::Bgp,
                            color_index: ColorIndex { high: false, low: false },
                        };
                        self.bg_fifo.push(pixel);
                        proof {
                            assert(old(self).bg_fifo@ + Seq::new((i + 1) as nat, |k: int| blank_pixel())
                                =~= (old(self).bg_fifo@ + Seq::new(
                                i as nat,
                                |k: int| blank_pixel(),
                            )).push(pixel));
                        }
                        i += 1;
                    }
                    self.state = FetcherState::BeforeGetTile;
                } else {
                    self.state = FetcherState::GetTileDataHigh;
                }
            },
            FetcherState::GetTileDataHigh => {
                self.get_tile_data_high(vram, lcdc);
                self.state = FetcherState::Push;
            },
            FetcherState::Push => {
                if self.push() {
                    self.state = FetcherState::BeforeGetTile;
                } else {
                    self.state = FetcherState::Push;
                }
            },
        }
    }
}

impl Default for BackgroundFetcher {
    fn default() -> (r: Self)
        ensures
            r.wf(),
            r.state == FetcherState::BeforeGetTile,
            !r.drawing_window,
            r.warmup,
            r.bg_fifo@.len() == 0,
            r.tile_id_spec() == 0 && r.tile_line_spec() == 0 && r.tile_x_spec() == 0,
            r.tile_data_low_spec() == 0 && r.tile_data_high_spec() == 0,
    {
        BackgroundFetcher {
            state: FetcherState::BeforeGetTile,
            drawing_window: false,
            warmup: true,
            bg_fifo: Vec::with_capacity(8),
            tile_id: 0,
            tile_line: 0,
            tile_x: 0,
            tile_data_low: 0,
            tile_data_high: 0,
        }
    }
}

} // verus!
