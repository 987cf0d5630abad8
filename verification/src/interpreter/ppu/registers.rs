//! The LCD control register and the palette a pixel is drawn with.
use vstd::prelude::*;
use crate::bits::bit_of;

verus! {

/// LCDC (0xFF40), one bit per switch.
#[derive(Clone, Copy, PartialEq, Eq, Structural, Debug)]
pub struct LcdControl {
    pub bits: u8,
}

impl LcdControl {
    pub fn from_bits(bits: u8) -> (r: Self)
        ensures
            r.bits == bits,
    {
        LcdControl { bits }
    }

    /// Bit 3: the background uses the tile map at 0x9C00 rather than 0x9800.
    pub fn bg_tile_map(&self) -> (r: bool)
        ensures
            r == bit_of(self.bits, 3),
    {
        (self.bits >> 3) & 1 == 1
    }

    /// Bit 4: background and window tiles use unsigned addressing from 0x8000
    /// rather than signed addressing around 0x9000.
    pub fn bg_and_window_tiles(&self) -> (r: bool)
        ensures
            r == bit_of(self.bits, 4),
    {
        (self.bits >> 4) & 1 == 1
    }

    /// Bit 6: the window uses the tile map at 0x9C00 rather than 0x9800.
    pub fn window_tile_map(&self) -> (r: bool)
        ensures
            r == bit_of(self.bits, 6),
    {
        (self.bits >> 6) & 1 == 1
    }
}

/// The palette a pixel is mapped through.
#[derive(Clone, Copy, PartialEq, Eq, Structural, Debug)]
pub enum PaletteSelect {
    Bgp,
    Obp0,
    Obp1,
}

} // verus!
