//! The PPU: a dot-by-dot state machine that walks the LCD's scanlines,
//! drives the STAT register and interrupts, and renders pixels.
use vstd::prelude::*;
use std::collections::VecDeque;
use crate::bits::{bit_of, lemma_low_bits_bounds, lemma_bits_kept};
use crate::hw_constants::{MEM_MAP_SIZE, PostBoot, SCREEN_SIZE, SCREEN_WIDTH};
use crate::io_regs;
use crate::ppu::bg_fetcher::{BackgroundFetcher, FetcherState, Pixel, bg_row, blank_bg_pixel, fetch_in_map};
use crate::ppu::lcd_control::{self, lcdc_of};
use crate::ppu::lcd_status;
use crate::ppu::oam::{self, Obj, covers_line};
use crate::ppu::obj_fetcher::{ObjectFetcher, fetch_step, merge_row, transparent, transparent_pixel};
use crate::ppu::palette::{self, Palette};

verus! {

pub const SCANLINES_PER_FRAME: usize = 154;
pub const DOTS_PER_SCANLINE: usize = 456;
pub const DOTS_PER_FRAME: usize = 70224;

pub const OAM_SCAN_DOTS: usize = 80;

/// OAM and VRAM access is never "read only", so this is a ternary value
/// rather than two bools for readable and writable.
#[derive(Copy, Clone, PartialEq, Eq, Structural, Debug)]
pub enum PpuMemAccess {
    ReadWrite,
    WriteOnly,
    Blocked,
}

#[derive(Debug, Copy, Clone, PartialEq, Eq, Structural)]
pub enum PpuMode {
    HBlank,
    VBlank,
    OamScan,
    Drawing,
}

pub struct Ppu {
    pub dot_counter: usize,
    pub mode: PpuMode,
    pub dots_in_mode: usize,
    pub x: u8,
    pub pixels_to_drop: u8,
    pub window_y: u8,
    pub bg_fetcher: BackgroundFetcher,
    // The PPU decides *when* to fetch an object (it knows the x coordinate),
    // whereas the ObjectFetcher just fetches whatever the PPU queues.
    pub obj_buffer: VecDeque<Obj>,
    pub obj_fetcher: ObjectFetcher,
    pub stat_interrupt_line: bool,
    pub stat_mode_for_interrupt: u8,
    pub ly_to_compare_lyc: Option<u8>,
    pub oam_access: PpuMemAccess,
    pub vram_access: PpuMemAccess,
    /// Greyscale pixel values, i.e. what the PPU outputs to the LCD.
    pub lcd_buffer: Vec<u8>,
    pub disabled: bool,
    pub just_enabled: bool,
}

/// Memory maps agree everywhere except on STAT, LY and IF.
pub open spec fn only_lcd_regs_changed(new: Seq<u8>, before: Seq<u8>) -> bool {
    &&& new.len() == before.len()
    &&& forall|i: int|
        0 <= i < before.len() && i != io_regs::STAT && i != io_regs::LY && i != io_regs::IF ==> new[i] == before[i]
}

/// Every bit set in `old` is still set in `new`.
pub open spec fn bits_kept(new: u8, before: u8) -> bool {
    new & before == before
}

/// What any dot may do to the memory map: change STAT and LY, and set (never
/// clear) interrupt request bits in IF.
pub open spec fn lcd_frame(new: Seq<u8>, before: Seq<u8>) -> bool {
    &&& only_lcd_regs_changed(new, before)
    &&& bits_kept(new[io_regs::IF as int], before[io_regs::IF as int])
}

proof fn lemma_frame_refl(m: Seq<u8>)
    requires
        m.len() == MEM_MAP_SIZE,
    ensures
        lcd_frame(m, m),
{
    lemma_bits_kept(m[io_regs::IF as int], 0, 0, 0);
}

proof fn lemma_frame_trans(a: Seq<u8>, b: Seq<u8>, c: Seq<u8>)
    requires
        lcd_frame(b, a),
        lcd_frame(c, b),
    ensures
        lcd_frame(c, a),
{
    lemma_bits_kept(c[io_regs::IF as int], b[io_regs::IF as int], a[io_regs::IF as int], 0);
}

/// Writing STAT, LY, or an IF value that keeps IF's bits, stays in the frame.
proof fn lemma_frame_update(m: Seq<u8>, addr: int, v: u8)
    requires
        m.len() == MEM_MAP_SIZE,
        addr == io_regs::STAT || addr == io_regs::LY || (addr == io_regs::IF && bits_kept(
            v,
            m[io_regs::IF as int],
        )),
    ensures
        lcd_frame(m.update(addr, v), m),
{
    lemma_bits_kept(m[io_regs::IF as int], 0, 0, 0);
}

/// Setting bit 0 sets it, and keeping a byte's bits keeps bit 0.
proof fn lemma_bit0_set_and_kept(a: u8, b: u8)
    by (bit_vector)
    ensures
        bit_of(a | 1, 0),
        b & a == a && bit_of(a, 0) ==> bit_of(b, 0),
{
}

proof fn lemma_or_keeps(a: u8, k: u8)
    ensures
        bits_kept(a | k, a),
{
    lemma_bits_kept(a, 0, 0, k);
}

pub open spec fn ly_of(dot_counter: usize) -> int {
    ((dot_counter / DOTS_PER_SCANLINE) as int) % 256
}

fn drawing_window(memory: &[u8], x: u8, y: u8) -> (r: bool)
    requires
        memory@.len() == MEM_MAP_SIZE,
        x <= 160,
    ensures
        r == (bit_of(lcdc_of(memory@), 5) && x + 7 == memory@[io_regs::WX as int] && y
            >= memory@[io_regs::WY as int]),
{
    lcd_control::window_enabled(memory) && x + 7 == memory[io_regs::WX as usize] && y
        >= memory[io_regs::WY as usize]
}

/// The pixel that wins when an object pixel lies over a background pixel: the
/// background where the object is transparent, or where the object has
/// priority bit set and the background is not colour 0.
pub open spec fn mixed(bg_pixel: Pixel, obj_pixel: Pixel) -> Pixel {
    if !(obj_pixel.low || obj_pixel.high) || (obj_pixel.priority && (bg_pixel.low || bg_pixel.high)) {
        bg_pixel
    } else {
        obj_pixel
    }
}

/// The greyscale value the LCD shows for `pixel`: the shade its palette
/// register gives its colour index, from 255 (white) down to 63.
pub open spec fn shade_of(memory: Seq<u8>, pixel: Pixel) -> int {
    255 - palette::color_value(
        if pixel.palette == Palette::BGP {
            palette::color_of(memory[io_regs::BGP as int], pixel)
        } else if pixel.palette == Palette::OBP0 {
            palette::color_of(memory[io_regs::OBP0 as int], pixel)
        } else {
            palette::color_of(memory[io_regs::OBP1 as int], pixel)
        },
    ) * 64
}

/// The pixel drawn from a background pixel and an object pixel: the
/// background shows colour 0 while LCDC bit 0 is clear, and objects take
/// part only while LCDC bit 1 is set.
pub open spec fn drawn_pixel(memory: Seq<u8>, bg_pixel: Pixel, obj_pixel: Pixel) -> Pixel {
    let bg = if bit_of(lcdc_of(memory), 0) { bg_pixel } else { blank_bg_pixel() };
    if bit_of(lcdc_of(memory), 1) { mixed(bg, obj_pixel) } else { bg }
}

/// The background FIFO after one step of the background fetcher: the warm-up
/// step adds eight blank pixels, and the push step fills an empty FIFO with
/// the fetched row.
pub open spec fn bg_fifo_after_step(f: BackgroundFetcher) -> Seq<Pixel> {
    if f.state == FetcherState::BeforeGetTileDataHigh && f.warmup {
        f.bg_fifo@ + Seq::new(8, |i: int| blank_bg_pixel())
    } else if f.state == FetcherState::Push && f.bg_fifo@.len() == 0 {
        bg_row(f.tile_data_low, f.tile_data_high)
    } else {
        f.bg_fifo@
    }
}

fn mix_pixels(bg_pixel: Pixel, obj_pixel: Pixel) -> (r: Pixel)
    ensures
        r == mixed(bg_pixel, obj_pixel),
{
    let mut render_bg = false;
    render_bg = render_bg || !(obj_pixel.low || obj_pixel.high);
    render_bg = render_bg || (obj_pixel.priority && (bg_pixel.low || bg_pixel.high));

    if render_bg { bg_pixel } else { obj_pixel }
}

impl Ppu {
    pub open spec fn wf(self) -> bool {
        &&& self.wf_but_x()
        &&& self.x < SCREEN_WIDTH
    }

    pub open spec fn wf_but_x(self) -> bool {
        &&& self.lcd_buffer@.len() == SCREEN_SIZE
        &&& self.bg_fetcher.wf()
        &&& self.obj_fetcher.wf()
        &&& self.just_enabled ==> self.dot_counter < DOTS_PER_SCANLINE
        &&& self.mode == PpuMode::VBlank ==> self.dot_counter < DOTS_PER_FRAME
    }

    pub open spec fn spec_disabled(self) -> bool {
        self.disabled
    }

    pub open spec fn dots(self) -> usize {
        self.dot_counter
    }

    pub open spec fn spec_mode(self) -> PpuMode {
        self.mode
    }

    pub open spec fn spec_just_enabled(self) -> bool {
        self.just_enabled
    }

    /// The greyscale values shown on the LCD.
    pub open spec fn screen(self) -> Seq<u8> {
        self.lcd_buffer@
    }

    pub open spec fn spec_x(self) -> u8 {
        self.x
    }

    pub open spec fn spec_stat_interrupt_line(self) -> bool {
        self.stat_interrupt_line
    }

    /// The state of a freshly reset PPU.
    pub open spec fn is_reset(self) -> bool {
        &&& self.dot_counter == 0
        &&& self.mode == PpuMode::HBlank
        &&& self.dots_in_mode == 0
        &&& self.x == 0
        &&& self.pixels_to_drop == 0
        &&& self.window_y == 255
        &&& self.obj_buffer@.len() == 0
        &&& self.stat_mode_for_interrupt == 0xFF
        &&& self.ly_to_compare_lyc == Some(0u8)
        &&& self.oam_access == PpuMemAccess::ReadWrite
        &&& self.vram_access == PpuMemAccess::ReadWrite
        &&& self.lcd_buffer@ == Seq::new(SCREEN_SIZE as nat, |i: int| 0u8)
        &&& self.disabled
        &&& self.just_enabled
    }

    /// A reset PPU is off, at dot 0 of line 0 in HBlank, with x at 0 and a
    /// blank screen.
    pub proof fn lemma_reset_state(self)
        requires
            self.is_reset(),
        ensures
            self.dots() == 0,
            ly_of(self.dots()) == 0,
            self.spec_mode() == PpuMode::HBlank,
            self.spec_x() == 0,
            self.screen() == Seq::new(SCREEN_SIZE as nat, |i: int| 0u8),
            self.spec_disabled(),
            self.spec_just_enabled(),
    {
    }

    /// The LCD's current scanline.
    pub fn ly(&self) -> (r: u8)
        ensures
            r == ly_of(self.dots()),
    {
        let line = self.dot_counter / DOTS_PER_SCANLINE;
        let r = (line % 256) as u8;
        r
    }

    pub fn dots_this_line(&self) -> (r: usize)
        ensures
            r == self.dots() % DOTS_PER_SCANLINE,
    {
        self.dot_counter % DOTS_PER_SCANLINE
    }

    pub fn mode(&self) -> (r: PpuMode)
        ensures
            r == self.spec_mode(),
    {
        self.mode
    }

    /// Take the next queued object if the LCD has reached its x position.
    fn pop_next_obj(&mut self) -> (r: Option<Obj>)
        ensures
            final(self).screen() == old(self).screen(),
            old(self).obj_buffer@.len() > 0 && old(self).obj_buffer@[0].x_pos + old(self).pixels_to_drop
                <= old(self).x + 8 ==> r == Some(old(self).obj_buffer@[0]) && final(self).obj_buffer@ == old(self).obj_buffer@.drop_first(),
            !(old(self).obj_buffer@.len() > 0 && old(self).obj_buffer@[0].x_pos + old(self).pixels_to_drop
                <= old(self).x + 8) ==> r is None && final(self).obj_buffer@ == old(self).obj_buffer@,
            final(self).dot_counter == old(self).dot_counter,
            final(self).mode == old(self).mode,
            final(self).x == old(self).x,
            final(self).pixels_to_drop == old(self).pixels_to_drop,
            final(self).bg_fetcher == old(self).bg_fetcher,
            final(self).obj_fetcher == old(self).obj_fetcher,
            final(self).lcd_buffer == old(self).lcd_buffer,
            final(self).just_enabled == old(self).just_enabled,
            final(self).disabled == old(self).disabled,
            final(self).stat_interrupt_line == old(self).stat_interrupt_line,
            final(self).window_y == old(self).window_y,
            final(self).dots_in_mode == old(self).dots_in_mode,
            final(self).stat_mode_for_interrupt == old(self).stat_mode_for_interrupt,
            final(self).ly_to_compare_lyc == old(self).ly_to_compare_lyc,
    {
        if self.obj_buffer.len() > 0 {
            let front = self.obj_buffer[0];
            // The sum on the left might overflow a byte, so compare as usize.
            if front.x_pos as usize + self.pixels_to_drop as usize <= self.x as usize + 8 {
                let r = self.obj_buffer.pop_front();
                assert(old(self).obj_buffer@.subrange(1, old(self).obj_buffer@.len() as int) =~= old(self).obj_buffer@.drop_first());
                return r;
            }
        }
        None
    }
}


/// The mode that STAT shows: its two low bits.
pub open spec fn stat_mode(memory: Seq<u8>) -> u8 {
    memory[io_regs::STAT as int] & 0b11
}

/// Setting IF bit 0 or bit 1 keeps the other; STAT's coincidence bit is
/// the one `with_coincidence` sets.
proof fn lemma_flag_bits(v: u8, lyc: bool)
    ensures
        bit_of(v | 1, 1) == bit_of(v, 1),
        bit_of(v | 0b10, 1),
        bit_of(lcd_status::with_coincidence(v, lyc), 2) == lyc,
{
    assert(bit_of(v | 1, 1) == bit_of(v, 1)) by (bit_vector);
    assert(bit_of(v | 0b10, 1)) by (bit_vector);
    assert(bit_of(v | 0b0000_0100, 2)) by (bit_vector);
    assert(!bit_of(v & !0b0000_0100u8, 2)) by (bit_vector);
}

proof fn lemma_stat_mode_bits(v: u8, lyc: bool, mode: u8)
    ensures
        lcd_status::with_coincidence(v, lyc) & 0b11 == v & 0b11,
        lcd_status::with_ppu_mode(v, mode) & 0b11 == mode & 0b11,
        mode < 4 ==> lcd_status::with_ppu_mode(v, mode) & 0b11 == mode,
{
    assert(mode < 4 ==> mode & 0b11 == mode) by (bit_vector);
    assert((v | 0b0000_0100) & 0b11 == v & 0b11) by (bit_vector);
    assert((v & !0b0000_0100u8) & 0b11 == v & 0b11) by (bit_vector);
    assert(((v & 0b1111_1100) | (mode & 0b0000_0011)) & 0b11 == mode & 0b11) by (bit_vector);
}

/// STAT with its coincidence bit set from `lyc_match`.
pub open spec fn stat_interrupt_line_of(stat: u8, lyc_match: bool, mode_for_interrupt: u8) -> bool {
    (lyc_match && bit_of(stat, 6)) || (if mode_for_interrupt == 0 {
        bit_of(stat, 3)
    } else if mode_for_interrupt == 1 {
        bit_of(stat, 4)
    } else if mode_for_interrupt == 2 {
        bit_of(stat, 5)
    } else {
        false
    })
}

/// The STAT interrupt line follows STAT's select bits: in mode-for-interrupt
/// `m` (0 HBlank, 1 VBlank, 2 OAM scan) it is up when select bit 3 + m is set
/// (bit 3 HBlank, bit 4 VBlank, bit 5 OAM scan), or when LY matches LYC with
/// the LYC select bit 6 set; in any other mode only the LYC select counts.
pub proof fn lemma_stat_line_select_bits(stat: u8, lyc_match: bool, m: u8)
    ensures
        stat_interrupt_line_of(stat, lyc_match, m) == ((lyc_match && bit_of(stat, 6)) || (m < 3 && bit_of(
            stat,
            (3 + m) as u8,
        ))),
{
}

impl Ppu {
    /// Everything but the STAT interrupt line is as in `old`.
    pub open spec fn same_but_stat_line(self, before: Ppu) -> bool {
        &&& self.dot_counter == before.dot_counter
        &&& self.mode == before.mode
        &&& self.dots_in_mode == before.dots_in_mode
        &&& self.x == before.x
        &&& self.pixels_to_drop == before.pixels_to_drop
        &&& self.window_y == before.window_y
        &&& self.bg_fetcher == before.bg_fetcher
        &&& self.obj_buffer == before.obj_buffer
        &&& self.obj_fetcher == before.obj_fetcher
        &&& self.stat_mode_for_interrupt == before.stat_mode_for_interrupt
        &&& self.ly_to_compare_lyc == before.ly_to_compare_lyc
        &&& self.oam_access == before.oam_access
        &&& self.vram_access == before.vram_access
        &&& self.lcd_buffer == before.lcd_buffer
        &&& self.disabled == before.disabled
        &&& self.just_enabled == before.just_enabled
    }

    pub open spec fn lyc_match(self, memory: Seq<u8>) -> bool {
        self.ly_to_compare_lyc == Some(memory[io_regs::LYC as int])
    }

    pub open spec fn mode_for_interrupt(self) -> u8 {
        self.stat_mode_for_interrupt
    }

    /// Recompute the LYC == LY flag and the STAT interrupt line; a rising edge
    /// of the line requests the LCD interrupt (IF bit 1).
    pub fn update_stat_interrupt(&mut self, memory: &mut [u8])
        requires
            old(memory)@.len() == MEM_MAP_SIZE,
        ensures
            final(self).screen() == old(self).screen(),
            ({
                let lyc_match = old(self).lyc_match(old(memory)@);
                let stat = lcd_status::with_coincidence(old(memory)@[io_regs::STAT as int], lyc_match);
                let line = stat_interrupt_line_of(stat, lyc_match, old(self).mode_for_interrupt());
                let rising = !old(self).spec_stat_interrupt_line() && line;
                let iflag = old(memory)@[io_regs::IF as int];
                &&& final(self).spec_stat_interrupt_line() == line
                &&& final(memory)@ == old(memory)@.update(io_regs::STAT as int, stat).update(
                    io_regs::IF as int,
                    if rising { iflag | 0b0000_0010 } else { iflag },
                )
            }),
            final(self).same_but_stat_line(*old(self)),
            lcd_frame(final(memory)@, old(memory)@),
            stat_mode(final(memory)@) == stat_mode(old(memory)@),
            // A rising STAT interrupt line requests the LCD interrupt.
            bit_of(final(memory)@[io_regs::IF as int], 1) == (bit_of(old(memory)@[io_regs::IF as int], 1)
                || (!old(self).stat_interrupt_line && final(self).stat_interrupt_line)),
            bit_of(final(memory)@[io_regs::STAT as int], 2) == old(self).lyc_match(old(memory)@),
    {
        proof {
            lemma_stat_mode_bits(old(memory)@[io_regs::STAT as int], old(self).lyc_match(old(memory)@), 0);
            lemma_flag_bits(old(memory)@[io_regs::IF as int], false);
            lemma_flag_bits(old(memory)@[io_regs::STAT as int], old(self).lyc_match(old(memory)@));
        }
        let coincidence = match self.ly_to_compare_lyc {
            Some(x) => x == memory[io_regs::LYC as usize],
            None => false,
        };
        lcd_status::set_coincidence(memory, coincidence);

        // STAT interrupt triggering.
        let lyc_int = coincidence && lcd_status::lyc_int_select(memory);
        let mode_int = match self.stat_mode_for_interrupt {
            0 => lcd_status::mode0_int_select(memory),
            1 => lcd_status::mode1_int_select(memory),
            2 => lcd_status::mode2_int_select(memory),
            _ => false,
        };

        let prev_stat_line = self.stat_interrupt_line;
        self.stat_interrupt_line = lyc_int || mode_int;

        let ghost mid = memory@;
        proof {
            lemma_frame_update(old(memory)@, io_regs::STAT as int, mid[io_regs::STAT as int]);
            assert(mid =~= old(memory)@.update(io_regs::STAT as int, mid[io_regs::STAT as int]));
        }
        // Low to high transition on the STAT interrupt line.
        if !prev_stat_line && self.stat_interrupt_line {
            // Request the LCD interrupt.
            let iflag = memory[io_regs::IF as usize];
            memory[io_regs::IF as usize] = iflag | 0b0000_0010;
            proof {
                lemma_or_keeps(iflag, 0b0000_0010);
                lemma_frame_update(mid, io_regs::IF as int, iflag | 0b0000_0010);
                lemma_frame_trans(old(memory)@, mid, memory@);
            }
        } else {
            proof {
                assert(memory@ =~= old(memory)@.update(
                    io_regs::STAT as int,
                    lcd_status::with_coincidence(old(memory)@[io_regs::STAT as int], coincidence),
                ).update(io_regs::IF as int, old(memory)@[io_regs::IF as int]));
            }
        }
    }

    fn update_ly_register(&self, memory: &mut [u8])
        requires
            old(memory)@.len() == MEM_MAP_SIZE,
        ensures
            final(memory)@ == old(memory)@.update(io_regs::LY as int, ly_of(self.dot_counter) as u8),
            lcd_frame(final(memory)@, old(memory)@),
    {
        proof { lemma_frame_update(old(memory)@, io_regs::LY as int, ly_of(self.dot_counter) as u8); }
        memory[io_regs::LY as usize] = self.ly();
    }

    fn update_stat_mode(memory: &mut [u8], mode: PpuMode)
        requires
            old(memory)@.len() == MEM_MAP_SIZE,
        ensures
            final(memory)@ == old(memory)@.update(
                io_regs::STAT as int,
                lcd_status::with_ppu_mode(
                    old(memory)@[io_regs::STAT as int],
                    match mode {
                        PpuMode::HBlank => 0u8,
                        PpuMode::VBlank => 1u8,
                        PpuMode::OamScan => 2u8,
                        PpuMode::Drawing => 3u8,
                    },
                ),
            ),
            lcd_frame(final(memory)@, old(memory)@),
            stat_mode(final(memory)@) == match mode {
                PpuMode::HBlank => 0u8,
                PpuMode::VBlank => 1u8,
                PpuMode::OamScan => 2u8,
                PpuMode::Drawing => 3u8,
            },
    {
        proof {
            lemma_stat_mode_bits(old(memory)@[io_regs::STAT as int], false, 0);
            lemma_stat_mode_bits(old(memory)@[io_regs::STAT as int], false, 1);
            lemma_stat_mode_bits(old(memory)@[io_regs::STAT as int], false, 2);
            lemma_stat_mode_bits(old(memory)@[io_regs::STAT as int], false, 3);
            lemma_frame_update(old(memory)@, io_regs::STAT as int, lcd_status::with_ppu_mode(
                old(memory)@[io_regs::STAT as int],
                match mode {
                    PpuMode::HBlank => 0u8,
                    PpuMode::VBlank => 1u8,
                    PpuMode::OamScan => 2u8,
                    PpuMode::Drawing => 3u8,
                },
            ));
        }
        match mode {
            PpuMode::HBlank => lcd_status::set_ppu_mode(memory, 0),
            PpuMode::VBlank => lcd_status::set_ppu_mode(memory, 1),
            PpuMode::OamScan => lcd_status::set_ppu_mode(memory, 2),
            PpuMode::Drawing => lcd_status::set_ppu_mode(memory, 3),
        }
    }

    fn transition_hblank(&mut self)
        requires
            old(self).wf_but_x(),
        ensures
            final(self).screen() == old(self).screen(),
            final(self).wf(),
            final(self).mode == PpuMode::HBlank,
            final(self).dots_in_mode == 0,
            final(self).x == 0,
            final(self).dot_counter == old(self).dot_counter,
            final(self).just_enabled == old(self).just_enabled,
            final(self).disabled == old(self).disabled,
            final(self).stat_interrupt_line == old(self).stat_interrupt_line,
            final(self).bg_fetcher.is_reset(),
            final(self).obj_fetcher.is_reset(),
            final(self).obj_buffer@ == old(self).obj_buffer@,
            final(self).window_y == old(self).window_y,
            final(self).pixels_to_drop == old(self).pixels_to_drop,
            final(self).ly_to_compare_lyc == old(self).ly_to_compare_lyc,
    {
        self.mode = PpuMode::HBlank;
        self.dots_in_mode = 0;
        self.x = 0;
        // Reset each of the fetchers.
        self.bg_fetcher = BackgroundFetcher::default();
        self.obj_fetcher = ObjectFetcher::default();
    }

    fn transition_vblank(&mut self, memory: &mut [u8])
        requires
            old(self).wf(),
            old(memory)@.len() == MEM_MAP_SIZE,
            old(self).dot_counter < DOTS_PER_FRAME,
        ensures
            final(self).screen() == old(self).screen(),
            final(self).wf(),
            final(self).mode == PpuMode::VBlank,
            final(self).dots_in_mode == 0,
            final(self).dot_counter == old(self).dot_counter,
            final(self).x == old(self).x,
            final(self).just_enabled == old(self).just_enabled,
            final(self).disabled == old(self).disabled,
            final(self).stat_interrupt_line == old(self).stat_interrupt_line,
            final(memory)@ == old(memory)@.update(io_regs::LY as int, ly_of(old(self).dot_counter) as u8),
            final(self).pixels_to_drop == old(self).pixels_to_drop,
            final(self).window_y == old(self).window_y,
            final(self).bg_fetcher == old(self).bg_fetcher,
            final(self).obj_fetcher == old(self).obj_fetcher,
            final(self).obj_buffer == old(self).obj_buffer,
            final(self).ly_to_compare_lyc == old(self).ly_to_compare_lyc,
    {
        self.mode = PpuMode::VBlank;
        self.dots_in_mode = 0;
        // Update LCD Y coordinate.
        self.update_ly_register(memory);
    }

    fn transition_oam_scan(&mut self)
        requires
            old(self).wf(),
        ensures
            final(self).screen() == old(self).screen(),
            final(self).wf(),
            final(self).mode == PpuMode::OamScan,
            final(self).dots_in_mode == 0,
            final(self).dot_counter == old(self).dot_counter,
            final(self).x == old(self).x,
            final(self).just_enabled == old(self).just_enabled,
            final(self).disabled == old(self).disabled,
            final(self).stat_interrupt_line == old(self).stat_interrupt_line,
            final(self).lcd_buffer == old(self).lcd_buffer,
            final(self).bg_fetcher == old(self).bg_fetcher,
            final(self).obj_fetcher == old(self).obj_fetcher,
            final(self).pixels_to_drop == old(self).pixels_to_drop,
            final(self).window_y == old(self).window_y,
            final(self).obj_buffer == old(self).obj_buffer,
            final(self).ly_to_compare_lyc == old(self).ly_to_compare_lyc,
    {
        self.mode = PpuMode::OamScan;
        self.dots_in_mode = 0;
    }

    fn transition_drawing(&mut self, memory: &mut [u8])
        requires
            old(self).wf(),
            old(memory)@.len() == MEM_MAP_SIZE,
        ensures
            final(self).screen() == old(self).screen(),
            final(self).wf(),
            final(self).mode == PpuMode::Drawing,
            final(self).dots_in_mode == 0,
            final(self).dot_counter == old(self).dot_counter,
            final(self).x == old(self).x,
            final(self).just_enabled == old(self).just_enabled,
            final(self).disabled == old(self).disabled,
            final(self).stat_interrupt_line == old(self).stat_interrupt_line,
            final(self).obj_buffer@ == oam::oam_scan_spec(old(memory)@, ly_of(old(self).dot_counter) as u8),
            final(memory)@ == old(memory)@,
            final(self).pixels_to_drop == (old(memory)@[io_regs::SCX as int] & 7) + 8,
            final(self).window_y == old(self).window_y,
            final(self).bg_fetcher == old(self).bg_fetcher,
            final(self).obj_fetcher == old(self).obj_fetcher,
            final(self).ly_to_compare_lyc == old(self).ly_to_compare_lyc,
    {
        self.mode = PpuMode::Drawing;
        self.dots_in_mode = 0;

        // This is the last cycle of the OAM scan, so lets actually do the OAM scan.
        let ly = self.ly();
        let scanned = oam::oam_scan(memory, ly);
        let mut buffer: VecDeque<Obj> = VecDeque::with_capacity(10);
        let mut i: usize = 0;
        while i < scanned.len()
            invariant
                i <= scanned@.len(),
                buffer@ == scanned@.take(i as int),
            decreases scanned@.len() - i,
        {
            buffer.push_back(scanned[i]);
            assert(scanned@.take(i + 1) =~= scanned@.take(i as int).push(scanned@[i as int]));
            i += 1;
        }
        assert(scanned@.take(scanned@.len() as int) =~= scanned@);
        self.obj_buffer = buffer;

        // Prepare for Drawing.
        let scx = memory[io_regs::SCX as usize];
        proof { lemma_low_bits_bounds(scx); }
        self.pixels_to_drop = (scx & 7) + 8;
    }
}


/// The dot counter after one dot (wrapping at the end of the counter's range).
pub open spec fn next_dot(d: usize) -> usize {
    if d == usize::MAX { 0 } else { (d + 1) as usize }
}

impl Ppu {
    /// Fields that only the disable/enable logic touches stay as they were.
    pub open spec fn same_flags(self, before: Ppu) -> bool {
        &&& self.disabled == before.disabled
        &&& self.just_enabled == before.just_enabled
    }

    /// A dot of the OAM scan (mode 2).
    fn tick_oam_scan(&mut self, memory: &mut [u8])
        requires
            old(self).wf(),
            old(self).mode == PpuMode::OamScan,
            !old(self).just_enabled,
            old(memory)@.len() == MEM_MAP_SIZE,
        ensures
            final(self).screen() == old(self).screen(),
            final(self).wf(),
            final(self).same_flags(*old(self)),
            lcd_frame(final(memory)@, old(memory)@),
            final(self).dot_counter == next_dot(old(self).dot_counter),
            final(self).mode == if final(self).dot_counter % DOTS_PER_SCANLINE == OAM_SCAN_DOTS {
                PpuMode::Drawing
            } else {
                PpuMode::OamScan
            },
            final(self).x == old(self).x,
            final(self).window_y == old(self).window_y,
            final(self).bg_fetcher == old(self).bg_fetcher,
            final(self).obj_fetcher == old(self).obj_fetcher,
            final(self).mode == PpuMode::Drawing ==> final(self).obj_buffer@ == oam::oam_scan_spec(
                old(memory)@,
                ly_of(final(self).dot_counter) as u8,
            ) && final(self).pixels_to_drop == (old(memory)@[io_regs::SCX as int] & 7) + 8,
            final(self).mode == PpuMode::OamScan ==> final(self).obj_buffer == old(self).obj_buffer
                && final(self).pixels_to_drop == old(self).pixels_to_drop,
            stat_mode(final(memory)@) == (if old(self).dot_counter % DOTS_PER_SCANLINE == 2 {
                0
            } else if old(self).dot_counter % DOTS_PER_SCANLINE == 3 {
                2
            } else {
                stat_mode(old(memory)@)
            }),
            final(self).ly_to_compare_lyc == (if old(self).dot_counter % DOTS_PER_SCANLINE == 2 {
                if ly_of(old(self).dot_counter) == 0 { Some(0u8) } else { None }
            } else if old(self).dot_counter % DOTS_PER_SCANLINE == 3 {
                Some(ly_of(old(self).dot_counter) as u8)
            } else {
                old(self).ly_to_compare_lyc
            }),
            !old(self).stat_interrupt_line && final(self).stat_interrupt_line ==> bit_of(
                final(memory)@[io_regs::IF as int],
                1,
            ),
            bit_of(old(memory)@[io_regs::IF as int], 1) ==> bit_of(final(memory)@[io_regs::IF as int], 1),
            (old(self).dot_counter % DOTS_PER_SCANLINE == 2 || old(self).dot_counter % DOTS_PER_SCANLINE == 3) ==> bit_of(final(memory)@[io_regs::STAT as int], 2) == (final(self).ly_to_compare_lyc
                == Some(old(memory)@[io_regs::LYC as int])),
            !((old(self).dot_counter % DOTS_PER_SCANLINE == 2 || old(self).dot_counter % DOTS_PER_SCANLINE == 3)) ==> bit_of(final(memory)@[io_regs::STAT as int], 2) == bit_of(
                old(memory)@[io_regs::STAT as int],
                2,
            ),
    {
        proof { lemma_frame_refl(memory@); }
        // From line 1 on, mode 2 signals its STAT interrupt one T-cycle
        // *before* its bits change in STAT.

        // Observable 3.
        if self.dots_this_line() == 2 {
            self.oam_access = PpuMemAccess::WriteOnly;
            if self.ly() == 0 {
                self.stat_mode_for_interrupt = 0xFF;
                self.ly_to_compare_lyc = Some(0);
            } else {
                self.stat_mode_for_interrupt = 2;
                self.ly_to_compare_lyc = None;
            }
            let ghost m0 = memory@;
            Self::update_stat_mode(memory, PpuMode::HBlank);
            let ghost m1 = memory@;
            self.update_stat_interrupt(memory);
            proof {
                lemma_frame_trans(old(memory)@, m0, m1);
                lemma_frame_trans(old(memory)@, m1, memory@);
            }
        }
        // Observable 4.
        if self.dots_this_line() == 3 {
            self.oam_access = PpuMemAccess::Blocked;
            let ghost m0 = memory@;
            Self::update_stat_mode(memory, PpuMode::OamScan);
            self.ly_to_compare_lyc = Some(self.ly());
            self.stat_mode_for_interrupt = 2;
            let ghost m1 = memory@;
            self.update_stat_interrupt(memory);
            let ghost m2 = memory@;
            self.stat_mode_for_interrupt = 0xFF;
            self.update_stat_interrupt(memory);
            proof {
                lemma_frame_trans(old(memory)@, m0, m1);
                lemma_frame_trans(old(memory)@, m1, m2);
                lemma_frame_trans(old(memory)@, m2, memory@);
            }
        }
        // Observable 80.
        if self.dots_this_line() == 79 {
            self.oam_access = PpuMemAccess::WriteOnly;
            self.vram_access = PpuMemAccess::WriteOnly;
        }

        self.dot_counter = self.dot_counter.wrapping_add(1);
        self.dots_in_mode = self.dots_in_mode.wrapping_add(1);
        if self.dots_this_line() == OAM_SCAN_DOTS {
            self.transition_drawing(memory);
        }
    }

    /// A dot of HBlank (mode 0).
    fn tick_hblank(&mut self, memory: &mut [u8])
        requires
            old(self).wf(),
            old(self).mode == PpuMode::HBlank,
            !old(self).just_enabled,
            old(memory)@.len() == MEM_MAP_SIZE,
        ensures
            final(self).screen() == old(self).screen(),
            final(self).wf(),
            final(self).same_flags(*old(self)),
            lcd_frame(final(memory)@, old(memory)@),
            final(self).dot_counter == next_dot(old(self).dot_counter),
            final(self).mode == if final(self).dot_counter % DOTS_PER_SCANLINE == 0 {
                if ly_of(final(self).dot_counter) == 144 && final(self).dot_counter < DOTS_PER_FRAME {
                    PpuMode::VBlank
                } else {
                    PpuMode::OamScan
                }
            } else {
                PpuMode::HBlank
            },
            final(self).dot_counter % DOTS_PER_SCANLINE == 0 ==> final(memory)@[io_regs::LY as int] == ly_of(
                final(self).dot_counter,
            ),
            final(self).x == old(self).x,
            final(self).window_y == old(self).window_y,
            final(self).pixels_to_drop == old(self).pixels_to_drop,
            final(self).bg_fetcher == old(self).bg_fetcher,
            final(self).obj_fetcher == old(self).obj_fetcher,
            final(self).obj_buffer == old(self).obj_buffer,
            stat_mode(final(memory)@) == (if old(self).dots_in_mode == 3 { 0 } else { stat_mode(old(memory)@) }),
            final(self).ly_to_compare_lyc == (if final(self).mode == PpuMode::VBlank {
                None
            } else {
                old(self).ly_to_compare_lyc
            }),
            !old(self).stat_interrupt_line && final(self).stat_interrupt_line ==> bit_of(
                final(memory)@[io_regs::IF as int],
                1,
            ),
            bit_of(old(memory)@[io_regs::IF as int], 1) ==> bit_of(final(memory)@[io_regs::IF as int], 1),
            old(self).dots_in_mode == 3 ==> bit_of(final(memory)@[io_regs::STAT as int], 2) == (old(self).ly_to_compare_lyc
                == Some(old(memory)@[io_regs::LYC as int])),
            !(old(self).dots_in_mode == 3) ==> bit_of(final(memory)@[io_regs::STAT as int], 2) == bit_of(
                old(memory)@[io_regs::STAT as int],
                2,
            ),
    {
        proof { lemma_frame_refl(memory@); }
        // Observable 4 dots into HBlank, or 256 with the shortest mode 3.
        if self.dots_in_mode == 3 {
            self.oam_access = PpuMemAccess::ReadWrite;
            self.vram_access = PpuMemAccess::ReadWrite;
            let ghost m0 = memory@;
            Self::update_stat_mode(memory, PpuMode::HBlank);
            self.stat_mode_for_interrupt = 0;
            let ghost m1 = memory@;
            self.update_stat_interrupt(memory);
            proof {
                lemma_frame_trans(old(memory)@, m0, m1);
                lemma_frame_trans(old(memory)@, m1, memory@);
            }
        }

        self.dot_counter = self.dot_counter.wrapping_add(1);
        self.dots_in_mode = self.dots_in_mode.wrapping_add(1);
        if self.dot_counter % DOTS_PER_SCANLINE == 0 {
            let ghost m0 = memory@;
            if self.ly() == 144 && self.dot_counter < DOTS_PER_FRAME {
                self.transition_vblank(memory);
                let ghost m1 = memory@;
                self.update_ly_register(memory);
                self.ly_to_compare_lyc = None;
                proof {
                    lemma_frame_update(m0, io_regs::LY as int, ly_of(self.dot_counter) as u8);
                    lemma_frame_trans(old(memory)@, m0, m1);
                    lemma_frame_trans(old(memory)@, m1, memory@);
                }
            } else {
                // Update LCD Y coordinate.
                self.update_ly_register(memory);
                self.transition_oam_scan();
                proof { lemma_frame_trans(old(memory)@, m0, memory@); }
            }
        }
    }

    /// A dot of VBlank (mode 1).
    fn tick_vblank(&mut self, memory: &mut [u8])
        requires
            old(self).wf(),
            old(self).mode == PpuMode::VBlank,
            !old(self).just_enabled,
            old(memory)@.len() == MEM_MAP_SIZE,
        ensures
            final(self).screen() == old(self).screen(),
            final(self).wf(),
            final(self).same_flags(*old(self)),
            lcd_frame(final(memory)@, old(memory)@),
            old(self).dot_counter + 1 == DOTS_PER_FRAME ==> final(self).dot_counter == 0 && final(self).mode
                == PpuMode::OamScan,
            old(self).dot_counter + 1 < DOTS_PER_FRAME ==> final(self).dot_counter == old(self).dot_counter + 1
                && final(self).mode == PpuMode::VBlank,
            ((old(self).dot_counter + 1) as usize) % DOTS_PER_SCANLINE == 0 ==> final(memory)@[io_regs::LY as int]
                == ly_of((old(self).dot_counter + 1) as usize),
            old(self).dot_counter % DOTS_PER_SCANLINE == 3 && ly_of(old(self).dot_counter) == 144 ==> bit_of(
                final(memory)@[io_regs::IF as int],
                0,
            ),
            final(self).x == old(self).x,
            final(self).window_y == (if old(self).dot_counter + 1 == DOTS_PER_FRAME { 255 } else { old(self).window_y }),
            final(self).pixels_to_drop == old(self).pixels_to_drop,
            final(self).bg_fetcher == old(self).bg_fetcher,
            final(self).obj_fetcher == old(self).obj_fetcher,
            final(self).obj_buffer == old(self).obj_buffer,
            stat_mode(final(memory)@) == (if old(self).dot_counter % DOTS_PER_SCANLINE == 3 && ly_of(
                old(self).dot_counter,
            ) == 144 {
                1
            } else {
                stat_mode(old(memory)@)
            }),
            final(self).ly_to_compare_lyc == (if old(self).dot_counter % DOTS_PER_SCANLINE == 3 {
                Some(ly_of(old(self).dot_counter) as u8)
            } else {
                old(self).ly_to_compare_lyc
            }),
            !old(self).stat_interrupt_line && final(self).stat_interrupt_line ==> bit_of(
                final(memory)@[io_regs::IF as int],
                1,
            ),
            bit_of(old(memory)@[io_regs::IF as int], 1) ==> bit_of(final(memory)@[io_regs::IF as int], 1),
            old(self).dot_counter % DOTS_PER_SCANLINE == 3 ==> bit_of(final(memory)@[io_regs::STAT as int], 2) == (final(self).ly_to_compare_lyc
                == Some(old(memory)@[io_regs::LYC as int])),
            !(old(self).dot_counter % DOTS_PER_SCANLINE == 3) ==> bit_of(final(memory)@[io_regs::STAT as int], 2) == bit_of(
                old(memory)@[io_regs::STAT as int],
                2,
            ),
    {
        proof { lemma_frame_refl(memory@); }
        // Observable 4.
        if self.dots_this_line() == 3 {
            self.ly_to_compare_lyc = Some(self.ly());
            if self.ly() == 144 {
                let ghost m0 = memory@;
                Self::update_stat_mode(memory, PpuMode::VBlank);
                // Request the VBlank interrupt.
                let iflag = memory[io_regs::IF as usize];
                let ghost m1 = memory@;
                memory[io_regs::IF as usize] = iflag | 0b0000_0001;
                let ghost m2 = memory@;
                proof {
                    lemma_flag_bits(iflag, false);
                    lemma_or_keeps(iflag, 0b0000_0001);
                    lemma_frame_update(m1, io_regs::IF as int, iflag | 0b0000_0001);
                    lemma_frame_trans(old(memory)@, m0, m1);
                    lemma_frame_trans(old(memory)@, m1, m2);
                }
                // The start of VBlank also counts as an OAM scan for the STAT
                // interrupt.
                self.stat_mode_for_interrupt = 2;
                self.update_stat_interrupt(memory);
                let ghost m3 = memory@;
                self.stat_mode_for_interrupt = 1;
                self.update_stat_interrupt(memory);
                proof {
                    lemma_frame_trans(old(memory)@, m2, m3);
                    lemma_frame_trans(old(memory)@, m3, memory@);
                    lemma_bit0_set_and_kept(iflag, 0);
                    assert(m2[io_regs::IF as int] == iflag | 1);
                    lemma_bit0_set_and_kept(m2[io_regs::IF as int], m3[io_regs::IF as int]);
                    lemma_bit0_set_and_kept(m3[io_regs::IF as int], memory@[io_regs::IF as int]);
                }
            }
            let ghost m4 = memory@;
            self.update_stat_interrupt(memory);
            proof {
                lemma_frame_trans(old(memory)@, m4, memory@);
                lemma_bit0_set_and_kept(m4[io_regs::IF as int], memory@[io_regs::IF as int]);
            }
        }

        self.dot_counter += 1;
        if self.dots_this_line() == 0 {
            // Update LCD Y coordinate.
            let ghost m5 = memory@;
            self.update_ly_register(memory);
            proof { lemma_frame_trans(old(memory)@, m5, memory@); }
        }
        if self.dot_counter == DOTS_PER_FRAME {
            self.dot_counter = 0;
            self.window_y = 255;
            self.transition_oam_scan();
        }
    }
}


impl Ppu {
    /// The greyscale value the LCD shows for a pixel of `pixel`'s palette.
    fn render_pixel(memory: &[u8], pixel: Pixel) -> (r: u8)
        requires
            memory@.len() == MEM_MAP_SIZE,
        ensures
            r == shade_of(memory@, pixel),
    {
        let mut color_index: u8 = 0;
        if pixel.low {
            color_index += 1;
        }
        if pixel.high {
            color_index += 2;
        }
        let color = match pixel.palette {
            Palette::BGP => palette::map_to_bgp(memory, color_index),
            Palette::OBP0 => palette::map_to_obp0(memory, color_index),
            Palette::OBP1 => palette::map_to_obp1(memory, color_index),
        };
        255 - color.into_bits() * 64
    }

    /// Whether this dot hands the next object of the line to the object
    /// fetcher: the PPU reaches it once x plus the pixels still to drop
    /// covers its left edge.
    pub open spec fn hands_over_obj(self) -> bool {
        self.obj_buffer@.len() > 0 && self.obj_buffer@[0].x_pos + self.pixels_to_drop <= self.x + 8
    }

    /// Whether the object fetcher is idle once this dot's object is handed over.
    pub open spec fn obj_idle_at_start(self) -> bool {
        self.obj_fetcher.done && self.obj_fetcher.obj_buffer@.len() == 0 && !self.hands_over_obj()
    }

    /// Whether this dot steps the background fetcher (otherwise the object
    /// fetcher has the bus): while objects wait, the background fetcher
    /// first finishes a started fetch that it can push.
    #[verifier::opaque]
    pub open spec fn bg_steps(self, memory: Seq<u8>) -> bool {
        let bg_busy = self.bg_fetcher.state == FetcherState::BeforeGetTileDataHigh
            || self.bg_fetcher.state == FetcherState::GetTileDataHigh || self.bg_fetcher.state
            == FetcherState::Push;
        &&& self.obj_idle_at_start() || self.bg_fetcher.bg_fifo@.len() == 0 || !bg_busy
        &&& self.bg_fetcher.state == FetcherState::GetTile ==> fetch_in_map(
            self.bg_fetcher,
            memory,
            ly_of(self.dot_counter) as u8,
            self.window_y,
        )
    }

    /// Whether this dot steps the object fetcher.
    #[verifier::opaque]
    pub open spec fn obj_steps(self) -> bool {
        let ly = ly_of(self.dot_counter);
        let bg_busy = self.bg_fetcher.state == FetcherState::BeforeGetTileDataHigh
            || self.bg_fetcher.state == FetcherState::GetTileDataHigh || self.bg_fetcher.state
            == FetcherState::Push;
        &&& !(self.obj_idle_at_start() || self.bg_fetcher.bg_fifo@.len() == 0 || !bg_busy)
        &&& ly < 240
        &&& forall|i: int|
            0 <= i < self.obj_fetcher.obj_buffer@.len() ==> covers_line(
                #[trigger] self.obj_fetcher.obj_buffer@[i],
                ly as u8,
            )
        &&& self.hands_over_obj() ==> covers_line(self.obj_buffer@[0], ly as u8)
        &&& self.obj_fetcher.current_obj matches Some(obj) ==> covers_line(obj, ly as u8)
    }

    /// Whether the object fetcher's step this dot ends in its push step.
    #[verifier::opaque]
    pub open spec fn obj_pushes(self, memory: Seq<u8>) -> bool {
        &&& self.obj_steps()
        &&& !self.obj_fetcher.done
        &&& (if self.obj_fetcher.ticks + 1 >= 2 {
            fetch_step(self.obj_fetcher, memory, ly_of(self.dot_counter) as u8).0
        } else {
            self.obj_fetcher.state
        }) == FetcherState::Push
    }

    /// The background FIFO once this dot's fetch is done.
    #[verifier::opaque]
    pub open spec fn bg_fifo_after_fetch(self, memory: Seq<u8>) -> Seq<Pixel> {
        if self.bg_steps(memory) {
            bg_fifo_after_step(self.bg_fetcher)
        } else {
            self.bg_fetcher.bg_fifo@
        }
    }

    /// The object FIFO once this dot's fetch is done: a push merges the
    /// fetched row under the pixels already there.
    #[verifier::opaque]
    pub open spec fn obj_fifo_after_fetch(self, memory: Seq<u8>) -> Seq<Pixel> {
        if self.obj_pushes(memory) {
            let step = if self.obj_fetcher.ticks + 1 >= 2 {
                fetch_step(self.obj_fetcher, memory, ly_of(self.dot_counter) as u8)
            } else {
                (
                    self.obj_fetcher.state,
                    self.obj_fetcher.tile_id,
                    self.obj_fetcher.tile_line,
                    self.obj_fetcher.tile_data_low,
                    self.obj_fetcher.tile_data_high,
                )
            };
            merge_row(self.obj_fetcher.fifo@, self.obj_fetcher.current_obj.unwrap(), step.3, step.4)
        } else {
            self.obj_fetcher.fifo@
        }
    }

    /// Whether the object fetcher is idle once this dot's fetch is done.
    #[verifier::opaque]
    pub open spec fn obj_idle_after_fetch(self, memory: Seq<u8>) -> bool {
        if self.obj_steps() {
            self.obj_pushes(memory) && self.obj_fetcher.obj_buffer@.len() == 0 && !self.hands_over_obj()
        } else {
            self.obj_idle_at_start()
        }
    }

    /// The background and object pixels that leave the FIFOs this dot, if
    /// any: a pixel comes out once the object fetcher is idle and the
    /// background FIFO holds one.
    #[verifier::opaque]
    pub open spec fn pixel_out(self, memory: Seq<u8>) -> Option<(Pixel, Pixel)> {
        let bgq = self.bg_fifo_after_fetch(memory);
        let objq = self.obj_fifo_after_fetch(memory);
        if self.obj_idle_after_fetch(memory) && bgq.len() > 0 {
            Some((bgq.last(), if objq.len() > 0 { objq[0] } else { transparent_pixel() }))
        } else {
            None
        }
    }

    /// The pixel out of a dot depends on the fetchers, the object queue, x,
    /// the pixels to drop, the line and the window line only.
    proof fn lemma_pixel_out_fields(self, other: Ppu, memory: Seq<u8>)
        requires
            self.bg_fetcher == other.bg_fetcher,
            self.obj_fetcher == other.obj_fetcher,
            self.obj_buffer == other.obj_buffer,
            self.x == other.x,
            self.pixels_to_drop == other.pixels_to_drop,
            self.dot_counter == other.dot_counter,
            self.window_y == other.window_y,
        ensures
            self.pixel_out(memory) == other.pixel_out(memory),
            self.bg_steps(memory) == other.bg_steps(memory),
            self.obj_steps() == other.obj_steps(),
    {
        reveal(Ppu::bg_steps);
        reveal(Ppu::obj_steps);
        reveal(Ppu::obj_pushes);
        reveal(Ppu::bg_fifo_after_fetch);
        reveal(Ppu::obj_fifo_after_fetch);
        reveal(Ppu::obj_idle_after_fetch);
        reveal(Ppu::pixel_out);
    }

    /// The object this dot hands over, if any.
    pub open spec fn handed_obj(self) -> Option<Obj> {
        if self.hands_over_obj() { Some(self.obj_buffer@[0]) } else { None }
    }

    /// The fetch part of a drawing dot, from `o` to `m`: the object the dot
    /// hands over is queued in the object fetcher, then the background
    /// fetcher or the object fetcher takes a step.
    pub open spec fn fetched(o: Ppu, m: Ppu, memory: Seq<u8>) -> bool {
        let ly = ly_of(o.dot_counter) as u8;
        &&& m.obj_buffer@ == (if o.hands_over_obj() { o.obj_buffer@.drop_first() } else { o.obj_buffer@ })
        &&& if o.bg_steps(memory) {
            BackgroundFetcher::ticked(o.bg_fetcher, m.bg_fetcher, memory, ly, o.window_y)
        } else {
            m.bg_fetcher.same_as(o.bg_fetcher)
        }
        &&& exists|f: ObjectFetcher|
            #[trigger] f.queued(o.obj_fetcher, o.handed_obj()) && if o.obj_steps() {
                ObjectFetcher::ticked(f, m.obj_fetcher, memory, ly)
            } else {
                m.obj_fetcher.same_as(f)
            }
        &&& m.x == o.x && m.pixels_to_drop == o.pixels_to_drop && m.window_y == o.window_y
        &&& m.lcd_buffer@ == o.lcd_buffer@
        &&& m.dot_counter == o.dot_counter && m.mode == o.mode && m.dots_in_mode == o.dots_in_mode
    }

    /// The output part of a drawing dot, from `m` to `n`: once the object
    /// fetcher is idle a pixel leaves each FIFO; it is dropped while scroll
    /// pixels remain, otherwise drawn at (x, LY) and x moves on. The window
    /// starts where x reaches WX - 7 on a line at or below WY, restarting the
    /// background fetcher. The dot ends, and with the line's last pixel
    /// drawing gives way to HBlank with both fetchers reset.
    pub open spec fn shown(m: Ppu, n: Ppu, memory: Seq<u8>) -> bool {
        let ly = ly_of(m.dot_counter);
        let out = m.obj_fetcher.done && m.obj_fetcher.obj_buffer@.len() == 0
            && m.bg_fetcher.bg_fifo@.len() > 0;
        let draw = out && m.pixels_to_drop == 0;
        let x1: int = if draw { m.x + 1 } else { m.x as int };
        let to_drop: int = if out && m.pixels_to_drop > 0 {
            m.pixels_to_drop - 1
        } else {
            m.pixels_to_drop as int
        };
        let objq = m.obj_fetcher.fifo@;
        let obj_pixel = if objq.len() > 0 { objq[0] } else { transparent_pixel() };
        let idx = ly * SCREEN_WIDTH + m.x;
        let window = bit_of(lcdc_of(memory), 5) && x1 + 7 == memory[io_regs::WX as int] && ly
            >= memory[io_regs::WY as int] && !m.bg_fetcher.drawing_window;
        &&& n.screen() == (if draw && idx < m.screen().len() {
            m.screen().update(
                idx,
                shade_of(memory, drawn_pixel(memory, m.bg_fetcher.bg_fifo@.last(), obj_pixel)) as u8,
            )
        } else {
            m.screen()
        })
        &&& n.dot_counter == next_dot(m.dot_counter)
        &&& n.obj_buffer@ == m.obj_buffer@
        &&& n.window_y == (if window { ((m.window_y + 1) % 256) as u8 } else { m.window_y })
        &&& n.pixels_to_drop == (if window { 0 } else { to_drop })
        &&& if x1 == SCREEN_WIDTH {
            &&& n.mode == PpuMode::HBlank && n.dots_in_mode == 0 && n.x == 0
            &&& n.bg_fetcher.is_reset() && n.obj_fetcher.is_reset()
        } else {
            &&& n.mode == PpuMode::Drawing && n.x == x1
            &&& n.dots_in_mode == next_dot(m.dots_in_mode)
            &&& n.obj_fetcher.same_but_fifo(m.obj_fetcher)
            &&& n.obj_fetcher.fifo@ == (if out {
                if objq.len() > 0 {
                    objq.subrange(1, objq.len() as int).push(transparent_pixel())
                } else {
                    seq![transparent_pixel()]
                }
            } else {
                objq
            })
            &&& if window {
                n.bg_fetcher.is_window_start()
            } else {
                &&& n.bg_fetcher.state == m.bg_fetcher.state
                &&& n.bg_fetcher.fields_but_fifo_unchanged(m.bg_fetcher)
                &&& n.bg_fetcher.bg_fifo@ == (if out {
                    m.bg_fetcher.bg_fifo@.drop_last()
                } else {
                    m.bg_fetcher.bg_fifo@
                })
            }
        }
    }

    /// Pixels still to be dropped for the fine horizontal scroll.
    pub open spec fn spec_pixels_to_drop(self) -> u8 {
        self.pixels_to_drop
    }

    /// The fetch of a drawing dot: hand the next object of the line to the
    /// object fetcher when x reaches it, then step the background fetcher,
    /// or the object fetcher while it has objects to fetch and the
    /// background fetcher is mid-fetch.
    fn fetch_dot(&mut self, memory: &[u8])
        requires
            old(self).wf(),
            old(self).mode == PpuMode::Drawing,
            !old(self).just_enabled,
            memory@.len() == MEM_MAP_SIZE,
        ensures
            final(self).wf(),
            final(self).bg_fetcher.bg_fifo@ == old(self).bg_fifo_after_fetch(memory@),
            final(self).obj_fetcher.fifo@ == old(self).obj_fifo_after_fetch(memory@),
            (final(self).obj_fetcher.done && final(self).obj_fetcher.obj_buffer@.len() == 0)
                == old(self).obj_idle_after_fetch(memory@),
            final(self).x == old(self).x,
            final(self).pixels_to_drop == old(self).pixels_to_drop,
            final(self).dot_counter == old(self).dot_counter,
            final(self).mode == old(self).mode,
            final(self).dots_in_mode == old(self).dots_in_mode,
            final(self).window_y == old(self).window_y,
            final(self).lcd_buffer@ == old(self).lcd_buffer@,
            final(self).just_enabled == old(self).just_enabled,
            final(self).disabled == old(self).disabled,
            final(self).stat_interrupt_line == old(self).stat_interrupt_line,
            final(self).stat_mode_for_interrupt == old(self).stat_mode_for_interrupt,
            final(self).ly_to_compare_lyc == old(self).ly_to_compare_lyc,
            Ppu::fetched(*old(self), *final(self), memory@),
    {
        reveal(Ppu::bg_steps);
        reveal(Ppu::obj_steps);
        reveal(Ppu::obj_pushes);
        reveal(Ppu::bg_fifo_after_fetch);
        reveal(Ppu::obj_fifo_after_fetch);
        reveal(Ppu::obj_idle_after_fetch);
        let handed = self.pop_next_obj();
        if let Some(obj) = handed {
            self.obj_fetcher.push_obj(obj);
        }
        let ghost queued = self.obj_fetcher;
        proof {
            assert(handed == old(self).handed_obj());
            assert(queued.queued(old(self).obj_fetcher, handed));
        }
        proof {
            let q = old(self).obj_fetcher.obj_buffer@;
            let q2 = self.obj_fetcher.obj_buffer@;
            let ly0 = ly_of(old(self).dot_counter) as u8;
            if handed is Some {
                assert(q2 == q.push(handed.unwrap()));
                assert(q2[q.len() as int] == handed.unwrap());
            } else {
                assert(q2 == q);
            }
            if self.obj_fetcher.objs_cover(ly0) {
                assert forall|i: int| 0 <= i < q.len() implies covers_line(#[trigger] q[i], ly0) by {
                    assert(q2[i] == q[i]);
                }
            }
            if (forall|i: int| 0 <= i < q.len() ==> covers_line(#[trigger] q[i], ly0)) && (handed is Some
                ==> covers_line(handed.unwrap(), ly0)) {
                assert forall|i: int| 0 <= i < q2.len() implies covers_line(#[trigger] q2[i], ly0) by {
                    if i < q.len() {
                        assert(q2[i] == q[i]);
                    }
                }
            }
        }

        let ly = self.ly();
        let bg_busy = match self.bg_fetcher.state {
            FetcherState::BeforeGetTileDataHigh | FetcherState::GetTileDataHigh | FetcherState::Push => true,
            _ => false,
        };
        if self.obj_fetcher.waiting_for_obj() || self.bg_fetcher.bg_fifo.len() == 0 || !bg_busy {
            // A tile-map read outside the map is never reached in practice.
            if self.bg_fetcher.fetch_index_in_map(memory, ly, self.window_y) {
                self.bg_fetcher.tick(memory, ly, self.window_y);
            }
        } else {
            // Objects queued for the line being drawn always cover it.
            if ly < 240 && self.obj_fetcher.objs_cover_line(ly) {
                self.obj_fetcher.tick(memory, ly);
            }
        }

        proof {
            assert(queued.queued(old(self).obj_fetcher, old(self).handed_obj()) && if old(self).obj_steps() {
                ObjectFetcher::ticked(queued, self.obj_fetcher, memory@, ly_of(old(self).dot_counter) as u8)
            } else {
                self.obj_fetcher.same_as(queued)
            });
        }
    }

    /// The output part of a drawing dot.
    #[verifier::rlimit(40)]
    fn output_dot(&mut self, memory: &[u8])
        requires
            old(self).wf(),
            old(self).mode == PpuMode::Drawing,
            !old(self).just_enabled,
            memory@.len() == MEM_MAP_SIZE,
        ensures
            final(self).wf(),
            final(self).same_flags(*old(self)),
            Ppu::shown(*old(self), *final(self), memory@),
            final(self).ly_to_compare_lyc == old(self).ly_to_compare_lyc,
            final(self).stat_interrupt_line == old(self).stat_interrupt_line,
    {
        let ly = self.ly();
        if self.obj_fetcher.waiting_for_obj() {
            // Combine FIFOs.
            if let Some(bg_pixel) = self.bg_fetcher.shift_out() {
                let obj_pixel = match self.obj_fetcher.shift_out() {
                    Some(p) => p,
                    None => transparent(),
                };

                if self.pixels_to_drop > 0 {
                    self.pixels_to_drop -= 1;
                } else {
                    // With the background/window disabled, use colour 0.
                    let mut pixel_to_render = if lcd_control::bg_and_window_enabled(memory) {
                        bg_pixel
                    } else {
                        Pixel { low: false, high: false, palette: Palette::BGP, priority: false }
                    };

                    if lcd_control::obj_enabled(memory) {
                        pixel_to_render = mix_pixels(pixel_to_render, obj_pixel);
                    }

                    let lcd_row = ly as usize * SCREEN_WIDTH as usize;
                    let lcd_pixel_index = lcd_row + self.x as usize;
                    let shade = Self::render_pixel(memory, pixel_to_render);
                    // Rows past the screen are never drawn in practice.
                    if lcd_pixel_index < self.lcd_buffer.len() {
                        self.lcd_buffer.set(lcd_pixel_index, shade);
                    }
                    self.x += 1;
                }
            }
        }

        if drawing_window(memory, self.x, self.ly()) && !self.bg_fetcher.drawing_window {
            self.window_y = self.window_y.wrapping_add(1);
            self.bg_fetcher = BackgroundFetcher::default();
            self.bg_fetcher.warmup = false;
            self.bg_fetcher.drawing_window = true;
            // Keep the window from being scrolled by SCX.
            self.pixels_to_drop = 0;
        }

        self.dot_counter = self.dot_counter.wrapping_add(1);
        self.dots_in_mode = self.dots_in_mode.wrapping_add(1);
        // Once this line is drawn, move to HBlank.
        if self.x == SCREEN_WIDTH {
            self.transition_hblank();
        }
    }

    /// A dot of drawing (mode 3).
    #[verifier::rlimit(60)]
    fn tick_drawing(&mut self, memory: &mut [u8])
        requires
            old(self).wf(),
            old(self).mode == PpuMode::Drawing,
            !old(self).just_enabled,
            old(memory)@.len() == MEM_MAP_SIZE,
        ensures
            final(self).wf(),
            final(self).same_flags(*old(self)),
            lcd_frame(final(memory)@, old(memory)@),
            final(self).dot_counter == next_dot(old(self).dot_counter),
            final(self).mode == PpuMode::Drawing ==> final(self).x == old(self).x || final(self).x == old(self).x + 1,
            final(self).mode == PpuMode::HBlank ==> old(self).x + 1 == SCREEN_WIDTH && final(self).x == 0,
            final(self).mode == PpuMode::Drawing || final(self).mode == PpuMode::HBlank,
            final(self).screen().len() == old(self).screen().len(),
            forall|i: int|
                0 <= i < old(self).screen().len() && i != ly_of(old(self).dot_counter) * SCREEN_WIDTH
                    + old(self).x ==> final(self).screen()[i] == old(self).screen()[i],
            final(self).mode == PpuMode::Drawing && final(self).x == old(self).x ==> final(self).screen()
                == old(self).screen(),
            ({
                let moved = (final(self).mode == PpuMode::Drawing && final(self).x == old(self).x + 1)
                    || final(self).mode == PpuMode::HBlank;
                let idx = ly_of(old(self).dot_counter) * SCREEN_WIDTH + old(self).x;
                let out = old(self).pixel_out(old(memory)@);
                &&& moved <==> (out is Some && old(self).pixels_to_drop == 0)
                &&& moved && idx < old(self).screen().len() ==> final(self).screen() == old(self).screen().update(
                    idx,
                    shade_of(old(memory)@, drawn_pixel(old(memory)@, out.unwrap().0, out.unwrap().1)) as u8,
                )
            }),
            exists|m: Ppu| #[trigger] Ppu::fetched(*old(self), m, old(memory)@) && Ppu::shown(m, *final(self), old(memory)@),
            stat_mode(final(memory)@) == (if old(self).dot_counter % DOTS_PER_SCANLINE == 83 {
                3
            } else {
                stat_mode(old(memory)@)
            }),
            final(self).ly_to_compare_lyc == old(self).ly_to_compare_lyc,
            !old(self).stat_interrupt_line && final(self).stat_interrupt_line ==> bit_of(
                final(memory)@[io_regs::IF as int],
                1,
            ),
            bit_of(old(memory)@[io_regs::IF as int], 1) ==> bit_of(final(memory)@[io_regs::IF as int], 1),
            old(self).dot_counter % DOTS_PER_SCANLINE == 83 ==> bit_of(final(memory)@[io_regs::STAT as int], 2) == (old(self).ly_to_compare_lyc
                == Some(old(memory)@[io_regs::LYC as int])),
            !(old(self).dot_counter % DOTS_PER_SCANLINE == 83) ==> bit_of(final(memory)@[io_regs::STAT as int], 2) == bit_of(
                old(memory)@[io_regs::STAT as int],
                2,
            ),
    {
        proof { lemma_frame_refl(memory@); }
        self.fetch_dot(memory);
        let ghost fetched_state = *self;
        proof {
            reveal(Ppu::pixel_out);
        }
        // Observable 84.
        if self.dots_this_line() == 83 {
            self.oam_access = PpuMemAccess::Blocked;
            self.vram_access = PpuMemAccess::Blocked;
            let ghost m0 = memory@;
            Self::update_stat_mode(memory, PpuMode::Drawing);
            self.stat_mode_for_interrupt = 3;
            let ghost m1 = memory@;
            self.update_stat_interrupt(memory);
            proof {
                lemma_frame_trans(old(memory)@, m0, m1);
                lemma_frame_trans(old(memory)@, m1, memory@);
            }
        }

        let ghost mm = memory@;
        proof {
            assert(lcd_frame(mm, old(memory)@));
            assert(mm[io_regs::LCDC as int] == old(memory)@[io_regs::LCDC as int]);
            assert(mm[io_regs::BGP as int] == old(memory)@[io_regs::BGP as int]);
            assert(mm[io_regs::OBP0 as int] == old(memory)@[io_regs::OBP0 as int]);
            assert(mm[io_regs::OBP1 as int] == old(memory)@[io_regs::OBP1 as int]);
            assert(mm[io_regs::SCX as int] == old(memory)@[io_regs::SCX as int]);
            assert(mm[io_regs::SCY as int] == old(memory)@[io_regs::SCY as int]);
        }
        let ghost before_output = *self;
        self.output_dot(memory);
        proof {
            assert(mm[io_regs::WX as int] == old(memory)@[io_regs::WX as int]);
            assert(mm[io_regs::WY as int] == old(memory)@[io_regs::WY as int]);
            assert(Ppu::shown(before_output, *self, mm));
            assert(Ppu::shown(fetched_state, *self, old(memory)@));
            assert(Ppu::fetched(*old(self), fetched_state, old(memory)@));
        }
    }

    /// A dot of the first line after the LCD is switched on, which follows
    /// its own timing.
    fn tick_just_enabled(&mut self, memory: &mut [u8])
        requires
            old(self).wf(),
            old(self).just_enabled,
            old(memory)@.len() == MEM_MAP_SIZE,
        ensures
            final(self).screen() == old(self).screen(),
            final(self).wf(),
            final(self).disabled == old(self).disabled,
            lcd_frame(final(memory)@, old(memory)@),
            final(self).just_enabled ==> final(self).mode == old(self).mode,
            !final(self).just_enabled ==> final(self).mode == PpuMode::OamScan && final(self).dot_counter
                == DOTS_PER_SCANLINE,
    {
        proof { lemma_frame_refl(memory@); }
        // Observable 1.
        if self.dot_counter == 0 {
            self.stat_mode_for_interrupt = 0xFF;
            let ghost m0 = memory@;
            self.update_stat_interrupt(memory);
            proof { lemma_frame_trans(old(memory)@, m0, memory@); }
        }
        // Observable 79.
        if self.dot_counter == 78 {
            self.oam_access = PpuMemAccess::Blocked;
            self.vram_access = PpuMemAccess::Blocked;
            let ghost m0 = memory@;
            Self::update_stat_mode(memory, PpuMode::Drawing);
            self.stat_mode_for_interrupt = 3;
            let ghost m1 = memory@;
            self.update_stat_interrupt(memory);
            proof {
                lemma_frame_trans(old(memory)@, m0, m1);
                lemma_frame_trans(old(memory)@, m1, memory@);
            }
        }
        // Observable 84: skip 5 extra dots, 84 is observed as 89.
        if self.dot_counter == 83 {
            self.dot_counter += 5;
        }
        // Observable 251.
        if self.dot_counter == 255 {
            self.oam_access = PpuMemAccess::ReadWrite;
            self.vram_access = PpuMemAccess::ReadWrite;
            let ghost m0 = memory@;
            Self::update_stat_mode(memory, PpuMode::HBlank);
            proof { lemma_frame_trans(old(memory)@, m0, memory@); }
            // Skip 2 extra dots.
            self.dot_counter += 2;
        }

        self.dot_counter += 1;
        if self.dot_counter == DOTS_PER_SCANLINE {
            let ghost m0 = memory@;
            self.update_ly_register(memory);
            proof { lemma_frame_trans(old(memory)@, m0, memory@); }
            self.just_enabled = false;
            self.transition_oam_scan();
        }
    }
}


impl Default for Ppu {
    fn default() -> (r: Self)
        ensures
            r.wf(),
            r.is_reset(),
            !r.spec_stat_interrupt_line(),
    {
        let lcd_buffer: Vec<u8> = vec![0; SCREEN_SIZE];
        assert(lcd_buffer@ =~= Seq::new(SCREEN_SIZE as nat, |i: int| 0u8));
        Ppu {
            dot_counter: 0,
            mode: PpuMode::HBlank,
            dots_in_mode: 0,
            x: 0,
            pixels_to_drop: 0,
            window_y: 255,
            bg_fetcher: BackgroundFetcher::default(),
            obj_buffer: VecDeque::with_capacity(10),
            obj_fetcher: ObjectFetcher::default(),
            stat_interrupt_line: false,
            stat_mode_for_interrupt: 0xFF,
            ly_to_compare_lyc: Some(0),
            oam_access: PpuMemAccess::ReadWrite,
            vram_access: PpuMemAccess::ReadWrite,
            lcd_buffer,
            disabled: true,
            just_enabled: true,
        }
    }
}

impl PostBoot for Ppu {
    /// The PPU as the DMG boot ROM leaves it: 54 dots before the end of a
    /// frame, in VBlank, with the LCD on.
    fn post_boot_dmg() -> (r: Self)
        ensures
            r.wf(),
            r.dots() == DOTS_PER_FRAME - 54,
            r.spec_mode() == PpuMode::VBlank,
            !r.spec_just_enabled(),
            !r.spec_disabled(),
            r.dots_in_mode == 0,
            r.x == 0,
            r.pixels_to_drop == 0,
            r.window_y == 255,
            r.bg_fetcher.is_reset(),
            r.obj_fetcher.is_reset(),
            r.obj_buffer@.len() == 0,
    {
        Ppu {
            dot_counter: DOTS_PER_FRAME - 54,
            mode: PpuMode::VBlank,
            dots_in_mode: 0,
            x: 0,
            pixels_to_drop: 0,
            window_y: 255,
            bg_fetcher: BackgroundFetcher::default(),
            obj_buffer: VecDeque::with_capacity(10),
            obj_fetcher: ObjectFetcher::default(),
            stat_interrupt_line: false,
            stat_mode_for_interrupt: 1,
            ly_to_compare_lyc: Some(0),
            oam_access: PpuMemAccess::ReadWrite,
            vram_access: PpuMemAccess::ReadWrite,
            lcd_buffer: vec![0; SCREEN_SIZE],
            disabled: false,
            just_enabled: false,
        }
    }
}

impl Ppu {
    /// Advance the PPU by one dot.
    ///
    /// With the LCD off (LCDC bit 7 clear) a running PPU resets, keeping only
    /// its STAT interrupt line, and shows mode 0 and line 0; an already
    /// stopped PPU does nothing. With the LCD on, the PPU steps through
    /// OAM scan (80 dots), drawing (until 160 pixels are out), HBlank (to the
    /// end of the 456-dot line), and after line 143 ten lines of VBlank.
    pub fn tick(&mut self, memory: &mut [u8])
        requires
            old(self).wf(),
            old(memory)@.len() == MEM_MAP_SIZE,
        ensures
            final(self).wf(),
            lcd_frame(final(memory)@, old(memory)@),
            !bit_of(lcdc_of(old(memory)@), 7) && old(self).spec_disabled() ==> *final(self) == *old(self) && final(memory)@
                == old(memory)@,
            !bit_of(lcdc_of(old(memory)@), 7) && !old(self).spec_disabled() ==> {
                &&& final(self).is_reset()
                &&& final(self).spec_stat_interrupt_line() == old(self).spec_stat_interrupt_line()
                &&& final(memory)@ == old(memory)@.update(
                    io_regs::STAT as int,
                    lcd_status::with_ppu_mode(old(memory)@[io_regs::STAT as int], 0),
                ).update(io_regs::LY as int, 0u8)
            },
            bit_of(lcdc_of(old(memory)@), 7) ==> !final(self).spec_disabled(),
            bit_of(lcdc_of(old(memory)@), 7) && old(self).spec_just_enabled() ==> (final(self).spec_just_enabled() ==> final(self).spec_mode() == old(self).spec_mode()) && (!final(self).spec_just_enabled() ==> final(self).spec_mode() == PpuMode::OamScan && final(self).dots()
                == DOTS_PER_SCANLINE),
            bit_of(lcdc_of(old(memory)@), 7) && !old(self).spec_just_enabled() ==> {
                let o = *old(self);
                let n = *final(self);
                &&& !n.spec_just_enabled()
                // A rise of the STAT interrupt line requests the LCD interrupt,
                // and a request stays.
                &&& !o.stat_interrupt_line && n.stat_interrupt_line ==> bit_of(
                    final(memory)@[io_regs::IF as int],
                    1,
                )
                &&& bit_of(old(memory)@[io_regs::IF as int], 1) ==> bit_of(final(memory)@[io_regs::IF as int], 1)
                &&& match o.spec_mode() {
                    PpuMode::OamScan => {
                        &&& n.dots() == next_dot(o.dots())
                        &&& n.spec_mode() == if n.dots() % DOTS_PER_SCANLINE == OAM_SCAN_DOTS {
                            PpuMode::Drawing
                        } else {
                            PpuMode::OamScan
                        }
                        &&& n.screen() == o.screen()
                        &&& n.x == o.x && n.window_y == o.window_y
                        &&& n.bg_fetcher == o.bg_fetcher && n.obj_fetcher == o.obj_fetcher
                        // Drawing starts with the line's objects found by the
                        // scan, and the fine scroll (plus a tile) to drop.
                        &&& n.mode == PpuMode::Drawing ==> n.obj_buffer@ == oam::oam_scan_spec(
                            old(memory)@,
                            ly_of(n.dot_counter) as u8,
                        ) && n.pixels_to_drop == (old(memory)@[io_regs::SCX as int] & 7) + 8
                        &&& n.mode == PpuMode::OamScan ==> n.obj_buffer == o.obj_buffer
                            && n.pixels_to_drop == o.pixels_to_drop
                        // STAT shows mode 0 on dot 2 of the line and mode 2 from dot 3.
                        &&& stat_mode(final(memory)@) == (if o.dot_counter % DOTS_PER_SCANLINE == 2 {
                            0
                        } else if o.dot_counter % DOTS_PER_SCANLINE == 3 {
                            2
                        } else {
                            stat_mode(old(memory)@)
                        })
                        // LY is compared with LYC from dot 3 (line 0 from dot 2).
                        &&& n.ly_to_compare_lyc == (if o.dot_counter % DOTS_PER_SCANLINE == 2 {
                            if ly_of(o.dot_counter) == 0 { Some(0u8) } else { None }
                        } else if o.dot_counter % DOTS_PER_SCANLINE == 3 {
                            Some(ly_of(o.dot_counter) as u8)
                        } else {
                            o.ly_to_compare_lyc
                        })
                        &&& (o.dot_counter % DOTS_PER_SCANLINE == 2 || o.dot_counter % DOTS_PER_SCANLINE == 3) ==> bit_of(final(memory)@[io_regs::STAT as int], 2) == (n.ly_to_compare_lyc
                            == Some(old(memory)@[io_regs::LYC as int]))
                        &&& !((o.dot_counter % DOTS_PER_SCANLINE == 2 || o.dot_counter % DOTS_PER_SCANLINE == 3)) ==> bit_of(final(memory)@[io_regs::STAT as int], 2) == bit_of(
                            old(memory)@[io_regs::STAT as int],
                            2,
                        )
                    },
                    PpuMode::Drawing => {
                        // At most the pixel at (x, LY) is drawn, and only when x moves on.
                        &&& n.screen().len() == o.screen().len()
                        &&& forall|i: int|
                            0 <= i < o.screen().len() && i != ly_of(o.dots()) * SCREEN_WIDTH + o.spec_x()
                                ==> n.screen()[i] == o.screen()[i]
                        &&& n.spec_mode() == PpuMode::Drawing && n.spec_x() == o.spec_x() ==> n.screen()
                            == o.screen()
                        &&& n.dots() == next_dot(o.dots())
                        &&& n.spec_mode() == PpuMode::Drawing ==> n.spec_x() == o.spec_x() || n.spec_x()
                            == o.spec_x() + 1
                        &&& n.spec_mode() == PpuMode::HBlank ==> o.spec_x() + 1 == SCREEN_WIDTH && n.spec_x() == 0
                        &&& n.spec_mode() == PpuMode::Drawing || n.spec_mode() == PpuMode::HBlank
                        // x moves on exactly when a pixel leaves the FIFOs with no
                        // scroll pixels left to drop, and that pixel is drawn.
                        &&& ({
                            let moved = (n.spec_mode() == PpuMode::Drawing && n.spec_x() == o.spec_x() + 1)
                                || n.spec_mode() == PpuMode::HBlank;
                            let idx = ly_of(o.dots()) * SCREEN_WIDTH + o.spec_x();
                            let out = o.pixel_out(old(memory)@);
                            &&& moved <==> (out is Some && o.spec_pixels_to_drop() == 0)
                            &&& moved && idx < o.screen().len() ==> n.screen() == o.screen().update(
                                idx,
                                shade_of(old(memory)@, drawn_pixel(old(memory)@, out.unwrap().0, out.unwrap().1))
                                    as u8,
                            )
                        })
                        // The whole dot: its fetch, then its output.
                        &&& exists|m: Ppu|
                            #[trigger] Ppu::fetched(o, m, old(memory)@) && Ppu::shown(m, n, old(memory)@)
                        // STAT shows mode 3 from dot 83 of the line.
                        &&& stat_mode(final(memory)@) == (if o.dot_counter % DOTS_PER_SCANLINE == 83 {
                            3
                        } else {
                            stat_mode(old(memory)@)
                        })
                        &&& n.ly_to_compare_lyc == o.ly_to_compare_lyc
                        &&& o.dot_counter % DOTS_PER_SCANLINE == 83 ==> bit_of(final(memory)@[io_regs::STAT as int], 2) == (o.ly_to_compare_lyc
                            == Some(old(memory)@[io_regs::LYC as int]))
                        &&& !(o.dot_counter % DOTS_PER_SCANLINE == 83) ==> bit_of(final(memory)@[io_regs::STAT as int], 2) == bit_of(
                            old(memory)@[io_regs::STAT as int],
                            2,
                        )
                    },
                    PpuMode::HBlank => {
                        &&& n.dots() == next_dot(o.dots())
                        &&& n.spec_mode() == if n.dots() % DOTS_PER_SCANLINE == 0 {
                            if ly_of(n.dots()) == 144 && n.dots() < DOTS_PER_FRAME {
                                PpuMode::VBlank
                            } else {
                                PpuMode::OamScan
                            }
                        } else {
                            PpuMode::HBlank
                        }
                        // A new line shows its number in LY.
                        &&& n.dots() % DOTS_PER_SCANLINE == 0 ==> final(memory)@[io_regs::LY as int]
                            == ly_of(n.dots())
                        &&& n.screen() == o.screen()
                        &&& n.x == o.x && n.window_y == o.window_y && n.pixels_to_drop == o.pixels_to_drop
                        &&& n.bg_fetcher == o.bg_fetcher && n.obj_fetcher == o.obj_fetcher
                        &&& n.obj_buffer == o.obj_buffer
                        // STAT shows mode 0 from the fourth dot of HBlank.
                        &&& stat_mode(final(memory)@) == (if o.dots_in_mode == 3 {
                            0
                        } else {
                            stat_mode(old(memory)@)
                        })
                        &&& n.ly_to_compare_lyc == (if n.mode == PpuMode::VBlank {
                            None
                        } else {
                            o.ly_to_compare_lyc
                        })
                        &&& o.dots_in_mode == 3 ==> bit_of(final(memory)@[io_regs::STAT as int], 2) == (o.ly_to_compare_lyc
                            == Some(old(memory)@[io_regs::LYC as int]))
                        &&& !(o.dots_in_mode == 3) ==> bit_of(final(memory)@[io_regs::STAT as int], 2) == bit_of(
                            old(memory)@[io_regs::STAT as int],
                            2,
                        )
                    },
                    PpuMode::VBlank => {
                        &&& if o.dots() + 1 == DOTS_PER_FRAME {
                            n.dots() == 0 && n.spec_mode() == PpuMode::OamScan
                        } else {
                            n.dots() == o.dots() + 1 && n.spec_mode() == PpuMode::VBlank
                        }
                        &&& ((o.dots() + 1) as usize) % DOTS_PER_SCANLINE == 0 ==> final(memory)@[io_regs::LY as int] == ly_of((o.dots() + 1) as usize)
                        // The VBlank interrupt is requested on dot 3 of line 144.
                        &&& o.dots() % DOTS_PER_SCANLINE == 3 && ly_of(o.dots()) == 144 ==> bit_of(
                            final(memory)@[io_regs::IF as int],
                            0,
                        )
                        &&& n.screen() == o.screen()
                        &&& n.window_y == (if o.dots() + 1 == DOTS_PER_FRAME { 255 } else { o.window_y })
                        &&& n.x == o.x && n.pixels_to_drop == o.pixels_to_drop
                        &&& n.bg_fetcher == o.bg_fetcher && n.obj_fetcher == o.obj_fetcher
                        &&& n.obj_buffer == o.obj_buffer
                        // STAT shows mode 1 from dot 3 of line 144.
                        &&& stat_mode(final(memory)@) == (if o.dot_counter % DOTS_PER_SCANLINE == 3
                            && ly_of(o.dot_counter) == 144 {
                            1
                        } else {
                            stat_mode(old(memory)@)
                        })
                        &&& n.ly_to_compare_lyc == (if o.dot_counter % DOTS_PER_SCANLINE == 3 {
                            Some(ly_of(o.dot_counter) as u8)
                        } else {
                            o.ly_to_compare_lyc
                        })
                        &&& o.dot_counter % DOTS_PER_SCANLINE == 3 ==> bit_of(final(memory)@[io_regs::STAT as int], 2) == (n.ly_to_compare_lyc
                            == Some(old(memory)@[io_regs::LYC as int]))
                        &&& !(o.dot_counter % DOTS_PER_SCANLINE == 3) ==> bit_of(final(memory)@[io_regs::STAT as int], 2) == bit_of(
                            old(memory)@[io_regs::STAT as int],
                            2,
                        )
                    },
                }
            },
    {
        if !lcd_control::lcd_and_ppu_enabled(memory) {
            if !self.disabled {
                // Reset the PPU state, preserving only the STAT interrupt line.
                let stat_interrupt_line = self.stat_interrupt_line;
                *self = Ppu::default();
                self.stat_interrupt_line = stat_interrupt_line;

                let ghost m0 = memory@;
                lcd_status::set_ppu_mode(memory, 0);
                let ghost m1 = memory@;
                self.update_ly_register(memory);
                proof {
                    lemma_frame_update(m0, io_regs::STAT as int, m1[io_regs::STAT as int]);
                    lemma_frame_trans(m0, m1, memory@);
                }
            }
            proof { lemma_frame_refl(memory@); }
            return;
        }
        if self.disabled {
            self.disabled = false;
        }
        proof {
            self.lemma_pixel_out_fields(*old(self), old(memory)@);
        }

        // Do evil initial line 0 shenanigans.
        if self.just_enabled {
            self.tick_just_enabled(memory);
            return;
        }

        match self.mode {
            PpuMode::OamScan => self.tick_oam_scan(memory),
            PpuMode::Drawing => {
                let ghost flipped = *self;
                self.tick_drawing(memory);
                proof {
                    let m = choose|m: Ppu|
                        #[trigger] Ppu::fetched(flipped, m, old(memory)@) && Ppu::shown(m, *self, old(memory)@);
                    assert(Ppu::fetched(*old(self), m, old(memory)@));
                }
            },
            PpuMode::HBlank => self.tick_hblank(memory),
            PpuMode::VBlank => self.tick_vblank(memory),
        }
    }
}

} // verus!
