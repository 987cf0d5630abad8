//! The object (sprite) fetcher.
//!
//! Its pixel FIFO always holds 8 pixels. Each time a pixel is shifted out a
//! transparent pixel is appended, and a fetched object row only overwrites
//! the transparent pixels already queued.
use vstd::prelude::*;
use std::collections::VecDeque;
use crate::bits::bit_of;
use crate::hw_constants::MEM_MAP_SIZE;
use crate::ppu::bg_fetcher::{bg_row, FetcherState, Pixel};
use crate::ppu::oam::{Obj, covers_line};
use crate::ppu::palette::Palette;

verus! {

/// The pixel that fills the object FIFO where no object is drawn.
pub open spec fn transparent_pixel() -> Pixel {
    Pixel { low: false, high: false, palette: Palette::OBP0, priority: false }
}

pub fn transparent() -> (r: Pixel)
    ensures
        r == transparent_pixel(),
{
    Pixel { low: false, high: false, palette: Palette::OBP0, priority: false }
}

/// The pixel an object row contributes to FIFO slot `i` (0 = next to be
/// shifted out): bit `i` of the row when flipped horizontally, else bit `7 - i`.
pub open spec fn obj_pixel(obj: Obj, low: u8, high: u8, i: int) -> Pixel {
    let nth_bit: u8 = if bit_of(obj.attributes, 5) { i as u8 } else { (7 - i) as u8 };
    Pixel {
        low: bit_of(low, nth_bit),
        high: bit_of(high, nth_bit),
        palette: if bit_of(obj.attributes, 4) { Palette::OBP1 } else { Palette::OBP0 },
        priority: bit_of(obj.attributes, 7),
    }
}

/// The FIFO after mixing in an object row: transparent slots among the first
/// eight take the object's pixel, others keep theirs.
pub open spec fn merge_row(fifo: Seq<Pixel>, obj: Obj, low: u8, high: u8) -> Seq<Pixel> {
    Seq::new(
        fifo.len(),
        |i: int|
            if i < 8 && !(fifo[i].low || fifo[i].high) {
                obj_pixel(obj, low, high, i)
            } else {
                fifo[i]
            },
    )
}

/// Objects are drawn left to right as background tiles are: without the
/// X-flip attribute (bit 5) the pixel an object puts in FIFO slot `i` (0 is
/// the leftmost on screen) has the colour of bit 7 - i of its tile row, the
/// colour a background tile with the same row shows at that position; with
/// X-flip it takes bit i. Slots holding an opaque pixel keep it.
pub proof fn lemma_object_row_order(fifo: Seq<Pixel>, obj: Obj, low: u8, high: u8, i: int)
    requires
        0 <= i < 8,
        i < fifo.len(),
    ensures
        ({
            let p = merge_row(fifo, obj, low, high)[i];
            let shown_bg = bg_row(low, high)[7 - i];
            &&& fifo[i].low || fifo[i].high ==> p == fifo[i]
            &&& !(fifo[i].low || fifo[i].high) && !bit_of(obj.attributes, 5) ==> {
                &&& p.low == bit_of(low, (7 - i) as u8) && p.high == bit_of(high, (7 - i) as u8)
                &&& p.low == shown_bg.low && p.high == shown_bg.high
            }
            &&& !(fifo[i].low || fifo[i].high) && bit_of(obj.attributes, 5) ==> p.low == bit_of(
                low,
                i as u8,
            ) && p.high == bit_of(high, i as u8)
        }),
{
}

/// Row of the object's tile drawn on `scanline`, after vertical flipping.
pub open spec fn obj_tile_line(obj: Obj, scanline: u8) -> u8 {
    let line = ((scanline + 16 - obj.y_pos) % 8) as u8;
    if bit_of(obj.attributes, 6) { (7 - line) as u8 } else { line }
}

/// The state and tile registers after one fetch step (taken every second
/// dot): (state, tile_id, tile_line, tile_data_low, tile_data_high).
pub open spec fn fetch_step(f: ObjectFetcher, memory: Seq<u8>, scanline: u8) -> (FetcherState, u8, u8, u8, u8) {
    match f.state {
        FetcherState::GetTile => (
            FetcherState::GetTileDataLow,
            f.current_obj.unwrap().tile_index,
            obj_tile_line(f.current_obj.unwrap(), scanline),
            f.tile_data_low,
            f.tile_data_high,
        ),
        FetcherState::GetTileDataLow => (
            FetcherState::GetTileDataHigh,
            f.tile_id,
            f.tile_line,
            memory[0x8000 + f.tile_id * 16 + f.tile_line * 2],
            f.tile_data_high,
        ),
        FetcherState::GetTileDataHigh => (
            FetcherState::Push,
            f.tile_id,
            f.tile_line,
            f.tile_data_low,
            memory[0x8000 + f.tile_id * 16 + f.tile_line * 2 + 1],
        ),
        _ => (f.state, f.tile_id, f.tile_line, f.tile_data_low, f.tile_data_high),
    }
}

pub struct ObjectFetcher {
    pub obj_buffer: VecDeque<Obj>,
    pub current_obj: Option<Obj>,
    pub done: bool,
    pub state: FetcherState,
    pub ticks: u8,
    pub fifo: Vec<Pixel>,
    pub tile_id: u8,
    pub tile_line: u8,
    pub tile_data_low: u8,
    pub tile_data_high: u8,
}

impl ObjectFetcher {
    pub open spec fn wf(self) -> bool {
        &&& self.ticks < 2
        &&& self.tile_line < 8
        &&& self.fifo@.len() == 8
        &&& !self.done ==> self.current_obj is Some
    }

    /// Every object the fetcher holds or will fetch covers `scanline`.
    pub open spec fn objs_cover(self, scanline: u8) -> bool {
        &&& forall|i: int| 0 <= i < self.obj_buffer@.len() ==> covers_line(#[trigger] self.obj_buffer@[i], scanline)
        &&& (self.current_obj matches Some(obj) ==> covers_line(obj, scanline))
    }

    /// The fetcher as a line starts: idle, with nothing queued and a
    /// transparent FIFO.
    pub open spec fn is_reset(self) -> bool {
        &&& self.obj_buffer@.len() == 0
        &&& self.current_obj is None
        &&& self.done
        &&& self.state == FetcherState::GetTile
        &&& self.ticks == 0
        &&& self.fifo@ == Seq::new(8, |i: int| transparent_pixel())
        &&& self.tile_id == 0 && self.tile_line == 0 && self.tile_data_low == 0 && self.tile_data_high == 0
    }

    /// Equal field by field but for the FIFO.
    pub open spec fn same_but_fifo(self, other: Self) -> bool {
        &&& self.obj_buffer@ == other.obj_buffer@
        &&& self.current_obj == other.current_obj
        &&& self.done == other.done
        &&& self.state == other.state
        &&& self.ticks == other.ticks
        &&& self.tile_id == other.tile_id
        &&& self.tile_line == other.tile_line
        &&& self.tile_data_low == other.tile_data_low
        &&& self.tile_data_high == other.tile_data_high
    }

    /// `self` is `before` with `handed` (if any) queued.
    pub open spec fn queued(self, before: Self, handed: Option<Obj>) -> bool {
        &&& self.obj_buffer@ == match handed {
            Some(obj) => before.obj_buffer@.push(obj),
            None => before.obj_buffer@,
        }
        &&& self.current_obj == before.current_obj
        &&& self.done == before.done
        &&& self.state == before.state
        &&& self.ticks == before.ticks
        &&& self.fifo@ == before.fifo@
        &&& self.tile_id == before.tile_id
        &&& self.tile_line == before.tile_line
        &&& self.tile_data_low == before.tile_data_low
        &&& self.tile_data_high == before.tile_data_high
    }

    /// Equal field by field (the queues by their contents).
    pub open spec fn same_as(self, other: Self) -> bool {
        &&& self.obj_buffer@ == other.obj_buffer@
        &&& self.current_obj == other.current_obj
        &&& self.done == other.done
        &&& self.state == other.state
        &&& self.ticks == other.ticks
        &&& self.fifo@ == other.fifo@
        &&& self.tile_id == other.tile_id
        &&& self.tile_line == other.tile_line
        &&& self.tile_data_low == other.tile_data_low
        &&& self.tile_data_high == other.tile_data_high
    }


    pub fn push_obj(&mut self, obj: Obj)
        ensures
            final(self).obj_buffer@ == old(self).obj_buffer@.push(obj),
            final(self).current_obj == old(self).current_obj,
            final(self).done == old(self).done,
            final(self).state == old(self).state,
            final(self).ticks == old(self).ticks,
            final(self).fifo@ == old(self).fifo@,
            final(self).tile_id == old(self).tile_id,
            final(self).tile_line == old(self).tile_line,
            final(self).tile_data_low == old(self).tile_data_low,
            final(self).tile_data_high == old(self).tile_data_high,
    {
        self.obj_buffer.push_back(obj);
    }

    /// Whether the fetcher has nothing in progress and nothing queued.
    pub fn waiting_for_obj(&self) -> (r: bool)
        ensures
            r == (self.done && self.obj_buffer@.len() == 0),
    {
        self.done && self.obj_buffer.len() == 0
    }

    /// Shift out a pixel from the Obj FIFO, appending a transparent pixel.
    pub fn shift_out(&mut self) -> (r: Option<Pixel>)
        ensures
            old(self).fifo@.len() > 0 ==> r == Some(old(self).fifo@[0])
                && final(self).fifo@ == old(self).fifo@.subrange(1, old(self).fifo@.len() as int).push(
                transparent_pixel(),
            ),
            old(self).fifo@.len() == 0 ==> r is None && final(self).fifo@ == seq![transparent_pixel()],
            final(self).obj_buffer@ == old(self).obj_buffer@,
            final(self).current_obj == old(self).current_obj,
            final(self).done == old(self).done,
            final(self).state == old(self).state,
            final(self).ticks == old(self).ticks,
            final(self).tile_id == old(self).tile_id,
            final(self).tile_line == old(self).tile_line,
            final(self).tile_data_low == old(self).tile_data_low,
            final(self).tile_data_high == old(self).tile_data_high,
    {
        let front = if self.fifo.len() > 0 {
            Some(self.fifo.remove(0))
        } else {
            None
        };
        self.fifo.push(transparent());
        proof {
            if old(self).fifo@.len() == 0 {
                assert(self.fifo@ =~= seq![transparent_pixel()]);
            }
        }
        front
    }

    /// Whether every object held or queued covers `scanline`.
    pub fn objs_cover_line(&self, scanline: u8) -> (r: bool)
        ensures
            r == self.objs_cover(scanline),
    {
        let mut i: usize = 0;
        while i < self.obj_buffer.len()
            invariant
                i <= self.obj_buffer@.len(),
                forall|k: int| 0 <= k < i ==> covers_line(#[trigger] self.obj_buffer@[k], scanline),
            decreases self.obj_buffer@.len() - i,
        {
            if !self.obj_buffer[i].intersects_y(scanline) {
                return false;
            }
            i += 1;
        }
        match self.current_obj {
            Some(obj) => obj.intersects_y(scanline),
            None => true,
        }
    }

    /// Take the next queued object, if any, and start fetching it.
    fn load_next(&mut self) -> (r: bool)
        ensures
            r == (old(self).obj_buffer@.len() > 0),
            r ==> {
                &&& final(self).current_obj == Some(old(self).obj_buffer@[0])
                &&& final(self).obj_buffer@ == old(self).obj_buffer@.drop_first()
                &&& final(self).state == FetcherState::GetTile
                &&& !final(self).done
                &&& final(self).ticks == 0
            },
            !r ==> final(self).obj_buffer@ == old(self).obj_buffer@ && final(self).current_obj
                == old(self).current_obj && final(self).state == old(self).state && final(self).done
                == old(self).done && final(self).ticks == old(self).ticks,
            final(self).fifo@ == old(self).fifo@,
            final(self).tile_id == old(self).tile_id,
            final(self).tile_line == old(self).tile_line,
            final(self).tile_data_low == old(self).tile_data_low,
            final(self).tile_data_high == old(self).tile_data_high,
    {
        if let Some(next_obj) = self.obj_buffer.pop_front() {
            assert(old(self).obj_buffer@.subrange(1, old(self).obj_buffer@.len() as int) =~= old(self).obj_buffer@.drop_first());
            self.current_obj = Some(next_obj);
            self.state = FetcherState::GetTile;
            self.done = false;
            self.ticks = 0;
            true
        } else {
            false
        }
    }

    /// Everything `tick` needs: well-formed state, a full memory map, and
    /// objects that cover the scanline being drawn.
    pub open spec fn tick_ok(self, memory: Seq<u8>, current_scanline: u8) -> bool {
        &&& self.wf()
        &&& memory.len() == MEM_MAP_SIZE
        &&& self.objs_cover(current_scanline)
        &&& current_scanline < 240
    }

    /// One dot of the fetcher: `n` is the fetcher after it, `o` before it.
    pub open spec fn ticked(o: Self, n: Self, memory: Seq<u8>, current_scanline: u8) -> bool {
        &&& n.wf()
        &&& n.objs_cover(current_scanline)
        &&& if o.done {
            if o.obj_buffer@.len() == 0 {
                n.same_as(o)
            } else {
                // Straight after a push the pick-up shares its dot with the
                // first tick of the new fetch.
                &&& n.current_obj == Some(o.obj_buffer@[0])
                &&& n.obj_buffer@ == o.obj_buffer@.drop_first()
                &&& n.state == FetcherState::GetTile && !n.done
                &&& n.ticks == if o.state == FetcherState::Push { 1u8 } else { 0u8 }
                &&& n.fifo@ == o.fifo@
                &&& n.tile_id == o.tile_id && n.tile_line == o.tile_line
                &&& n.tile_data_low == o.tile_data_low && n.tile_data_high == o.tile_data_high
            }
        } else {
            let stepped = o.ticks + 1 >= 2;
            let (state1, id1, line1, low1, high1) = if stepped {
                fetch_step(o, memory, current_scanline)
            } else {
                (o.state, o.tile_id, o.tile_line, o.tile_data_low, o.tile_data_high)
            };
            let ticks1: u8 = if stepped { 0 } else { (o.ticks + 1) as u8 };
            &&& n.tile_id == id1 && n.tile_line == line1
            &&& n.tile_data_low == low1 && n.tile_data_high == high1
            &&& if state1 == FetcherState::Push {
                // The row is mixed in and the fetch is done.
                &&& n.fifo@ == merge_row(o.fifo@, o.current_obj.unwrap(), low1, high1)
                &&& n.done && n.state == FetcherState::Push && n.ticks == ticks1
                &&& n.obj_buffer@ == o.obj_buffer@ && n.current_obj == o.current_obj
            } else {
                &&& n.state == state1 && n.ticks == ticks1 && !n.done
                &&& n.fifo@ == o.fifo@
                &&& n.obj_buffer@ == o.obj_buffer@ && n.current_obj == o.current_obj
            }
        }
    }

    /// Advance the fetcher by one dot. A fetcher that is done picks up the
    /// next queued object; coming from a push it also starts fetching it in
    /// the same dot, otherwise the pick-up takes the dot. Each fetch step
    /// takes two dots, and the row is mixed into the FIFO in the dot its last
    /// byte arrives, which ends the fetch.
    pub fn tick(&mut self, memory: &[u8], current_scanline: u8)
        requires
            old(self).tick_ok(memory@, current_scanline),
        ensures
            Self::ticked(*old(self), *final(self), memory@, current_scanline),
    {
        if self.done {
            let after_push = match self.state {
                FetcherState::Push => true,
                _ => false,
            };
            if !self.load_next() || !after_push {
                return;
            }
        }
        self.ticks += 1;

        if self.ticks >= 2 {
            self.ticks = 0;
            match self.state {
                FetcherState::GetTile => {
                    let obj = self.current_obj.unwrap();
                    self.get_tile(current_scanline, obj);
                    self.state = FetcherState::GetTileDataLow;
                },
                FetcherState::GetTileDataLow => {
                    self.get_tile_data_low(memory);
                    self.state = FetcherState::GetTileDataHigh;
                },
                FetcherState::GetTileDataHigh => {
                    self.get_tile_data_high(memory);
                    self.state = FetcherState::Push;
                },
                _ => {},
            }
        }

        if let FetcherState::Push = self.state {
            self.push();
            self.done = true;
        }
    }

    fn get_tile(&mut self, current_scanline: u8, obj: Obj)
        requires
            covers_line(obj, current_scanline),
            current_scanline < 240,
        ensures
            final(self).tile_id == obj.tile_index,
            final(self).tile_line == obj_tile_line(obj, current_scanline),
            final(self).tile_line < 8,
            final(self).obj_buffer@ == old(self).obj_buffer@,
            final(self).current_obj == old(self).current_obj,
            final(self).done == old(self).done,
            final(self).state == old(self).state,
            final(self).ticks == old(self).ticks,
            final(self).fifo@ == old(self).fifo@,
            final(self).tile_data_low == old(self).tile_data_low,
            final(self).tile_data_high == old(self).tile_data_high,
    {
        self.tile_id = obj.tile_index;
        let tile_line = (current_scanline + 16 - obj.y_pos) % 8;
        // Handle vertical object flipping.
        if !obj.y_flip() {
            self.tile_line = tile_line;
        } else {
            self.tile_line = 7 - tile_line;
        }
    }

    fn get_tile_data_low(&mut self, memory: &[u8])
        requires
            memory@.len() == MEM_MAP_SIZE,
            old(self).tile_line < 8,
        ensures
            final(self).tile_data_low == memory@[0x8000 + old(self).tile_id * 16 + old(self).tile_line * 2],
            final(self).obj_buffer@ == old(self).obj_buffer@,
            final(self).current_obj == old(self).current_obj,
            final(self).done == old(self).done,
            final(self).state == old(self).state,
            final(self).ticks == old(self).ticks,
            final(self).fifo@ == old(self).fifo@,
            final(self).tile_id == old(self).tile_id,
            final(self).tile_line == old(self).tile_line,
            final(self).tile_data_high == old(self).tile_data_high,
    {
        self.tile_data_low = memory[0x8000 + self.tile_id as usize * 16 + self.tile_line as usize * 2];
    }

    fn get_tile_data_high(&mut self, memory: &[u8])
        requires
            memory@.len() == MEM_MAP_SIZE,
            old(self).tile_line < 8,
        ensures
            final(self).tile_data_high == memory@[0x8000 + old(self).tile_id * 16 + old(self).tile_line * 2 + 1],
            final(self).obj_buffer@ == old(self).obj_buffer@,
            final(self).current_obj == old(self).current_obj,
            final(self).done == old(self).done,
            final(self).state == old(self).state,
            final(self).ticks == old(self).ticks,
            final(self).fifo@ == old(self).fifo@,
            final(self).tile_id == old(self).tile_id,
            final(self).tile_line == old(self).tile_line,
            final(self).tile_data_low == old(self).tile_data_low,
    {
        self.tile_data_high = memory[0x8000 + self.tile_id as usize * 16 + self.tile_line as usize * 2 + 1];
    }

    /// Mix the fetched row of the current object into the FIFO.
    fn push(&mut self)
        requires
            old(self).current_obj is Some,
        ensures
            final(self).fifo@ == merge_row(
                old(self).fifo@,
                old(self).current_obj.unwrap(),
                old(self).tile_data_low,
                old(self).tile_data_high,
            ),
            final(self).obj_buffer@ == old(self).obj_buffer@,
            final(self).current_obj == old(self).current_obj,
            final(self).done == old(self).done,
            final(self).state == old(self).state,
            final(self).ticks == old(self).ticks,
            final(self).tile_id == old(self).tile_id,
            final(self).tile_line == old(self).tile_line,
            final(self).tile_data_low == old(self).tile_data_low,
            final(self).tile_data_high == old(self).tile_data_high,
    {
        let obj = self.current_obj.unwrap();
        if obj.x_flip() {
            self.push_bit_range(true)
        } else {
            self.push_bit_range(false)
        }
    }

    /// Overwrite the transparent pixels among the first eight of the FIFO with
    /// the current object's row; `x_flip` selects the bit order.
    fn push_bit_range(&mut self, x_flip: bool)
        requires
            old(self).current_obj is Some,
            x_flip == bit_of(old(self).current_obj.unwrap().attributes, 5),
        ensures
            final(self).fifo@ == merge_row(
                old(self).fifo@,
                old(self).current_obj.unwrap(),
                old(self).tile_data_low,
                old(self).tile_data_high,
            ),
            final(self).obj_buffer@ == old(self).obj_buffer@,
            final(self).current_obj == old(self).current_obj,
            final(self).done == old(self).done,
            final(self).state == old(self).state,
            final(self).ticks == old(self).ticks,
            final(self).tile_id == old(self).tile_id,
            final(self).tile_line == old(self).tile_line,
            final(self).tile_data_low == old(self).tile_data_low,
            final(self).tile_data_high == old(self).tile_data_high,
    {
        let obj = self.current_obj.unwrap();
        let palette = if obj.palette() { Palette::OBP1 } else { Palette::OBP0 };
        let priority = obj.priority();
        let n: usize = if self.fifo.len() < 8 { self.fifo.len() } else { 8 };
        let ghost target = merge_row(old(self).fifo@, obj, self.tile_data_low, self.tile_data_high);
        let mut i: usize = 0;
        while i < n
            invariant
                i <= n,
                n <= 8,
                n == (if old(self).fifo@.len() < 8 { old(self).fifo@.len() } else { 8 }),
                obj == old(self).current_obj.unwrap(),
                x_flip == bit_of(obj.attributes, 5),
                palette == (if bit_of(obj.attributes, 4) { Palette::OBP1 } else { Palette::OBP0 }),
                priority == bit_of(obj.attributes, 7),
                target == merge_row(old(self).fifo@, obj, self.tile_data_low, self.tile_data_high),
                self.fifo@.len() == old(self).fifo@.len(),
                forall|k: int| 0 <= k < i ==> self.fifo@[k] == #[trigger] target[k],
                forall|k: int| i <= k < self.fifo@.len() ==> self.fifo@[k] == #[trigger] old(self).fifo@[k],
                self.obj_buffer@ == old(self).obj_buffer@,
                self.current_obj == old(self).current_obj,
                self.done == old(self).done,
                self.state == old(self).state,
                self.ticks == old(self).ticks,
                self.tile_id == old(self).tile_id,
                self.tile_line == old(self).tile_line,
                self.tile_data_low == old(self).tile_data_low,
                self.tile_data_high == old(self).tile_data_high,
            decreases n - i,
        {
            let nth_bit: u8 = if x_flip { i as u8 } else { 7 - i as u8 };
            let old_pixel = self.fifo[i];
            if !(old_pixel.low || old_pixel.high) {
                let new_pixel = Pixel {
                    low: (self.tile_data_low >> nth_bit) & 1 == 1,
                    high: (self.tile_data_high >> nth_bit) & 1 == 1,
                    palette,
                    priority,
                };
                self.fifo.set(i, new_pixel);
            }
            i += 1;
        }
        assert(self.fifo@ =~= target);
    }
}

impl Default for ObjectFetcher {
    fn default() -> (r: Self)
        ensures
            r.wf(),
            r.is_reset(),
    {
        let mut fifo: Vec<Pixel> = Vec::with_capacity(8);
        let mut i: usize = 0;
        while i < 8
            invariant
                i <= 8,
                fifo@ == Seq::new(i as nat, |k: int| transparent_pixel()),
            decreases 8 - i,
        {
            fifo.push(transparent());
            assert(fifo@ =~= Seq::new((i + 1) as nat, |k: int| transparent_pixel()));
            i += 1;
        }
        ObjectFetcher {
            obj_buffer: VecDeque::with_capacity(10),
            current_obj: None,
            done: true,
            state: FetcherState::GetTile,
            ticks: 0,
            fifo,
            tile_id: 0,
            tile_line: 0,
            tile_data_low: 0,
            tile_data_high: 0,
        }
    }
}

} // verus!
