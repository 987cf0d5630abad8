//! Palettes: mapping a pixel's two-bit colour index to a shade of grey.
use vstd::prelude::*;
use crate::io_regs;

verus! {

#[derive(Copy, Clone, PartialEq, Eq, Structural, Debug)]
pub enum Palette {
    BGP,
    OBP0,
    OBP1,
}

#[derive(Copy, Clone, PartialEq, Eq, Structural, Debug)]
pub enum Color {
    White,
    LightGrey,
    DarkGrey,
    Black,
}

/// The two-bit value a colour is stored as.
pub open spec fn color_value(c: Color) -> u8 {
    match c {
        Color::White => 0,
        Color::LightGrey => 1,
        Color::DarkGrey => 2,
        Color::Black => 3,
    }
}

/// The colour a palette register assigns to colour index `value` (0..=3):
/// bits `2 * value` and `2 * value + 1` of the register.
pub open spec fn palette_entry(palette: u8, value: u8) -> u8 {
    (palette >> (2 * value) as u8) & 0b0000_0011
}

/// The colour a palette register gives a pixel with the colour-index bits
/// `low` (bit 0) and `high` (bit 1).
pub open spec fn color_of(palette: u8, pixel: crate::ppu::bg_fetcher::Pixel) -> Color {
    let index: u8 = ((if pixel.low { 1int } else { 0int }) + (if pixel.high { 2int } else { 0int })) as u8;
    color_from_value(palette_entry(palette, index))
}

/// The colour stored as the two-bit value `v`.
pub open spec fn color_from_value(v: u8) -> Color {
    if v == 1 { Color::LightGrey } else if v == 2 { Color::DarkGrey } else if v == 3 { Color::Black } else { Color::White }
}

impl Color {
    /// The colour stored as `bits`; values above 3 fall back to white.
    pub fn from_bits(bits: u8) -> (r: Color)
        ensures
            bits < 4 ==> color_value(r) == bits,
            bits >= 4 ==> r == Color::White,
    {
        match bits {
            1 => Color::LightGrey,
            2 => Color::DarkGrey,
            3 => Color::Black,
            _ => Color::White,
        }
    }

    pub fn into_bits(self) -> (r: u8)
        ensures
            r == color_value(self),
    {
        match self {
            Color::White => 0,
            Color::LightGrey => 1,
            Color::DarkGrey => 2,
            Color::Black => 3,
        }
    }
}

pub fn map_to_palette(palette: u8, value: u8) -> (r: Color)
    requires
        value < 4,
    ensures
        color_value(r) == palette_entry(palette, value),
{
    let bits: u8 = match value {
        0 => palette & 0b0000_0011,
        1 => (palette >> 2) & 0b0000_0011,
        2 => (palette >> 4) & 0b0000_0011,
        _ => (palette >> 6) & 0b0000_0011,
    };
    assert(bits < 4) by (bit_vector)
        requires
            bits == palette & 3u8 || bits == (palette >> 2u8) & 3u8 || bits == (palette >> 4u8) & 3u8
                || bits == (palette >> 6u8) & 3u8;
    assert(palette & 3u8 == (palette >> 0u8) & 3u8) by (bit_vector);
    Color::from_bits(bits)
}

pub fn map_to_bgp(memory: &[u8], value: u8) -> (r: Color)
    requires
        memory@.len() > io_regs::OBP1,
        value < 4,
    ensures
        color_value(r) == palette_entry(memory@[io_regs::BGP as int], value),
{
    let bgp = memory[io_regs::BGP as usize];
    map_to_palette(bgp, value)
}

pub fn map_to_obp0(memory: &[u8], value: u8) -> (r: Color)
    requires
        memory@.len() > io_regs::OBP1,
        value < 4,
    ensures
        color_value(r) == palette_entry(memory@[io_regs::OBP0 as int], value),
{
    let obp0 = memory[io_regs::OBP0 as usize];
    map_to_palette(obp0, value)
}

pub fn map_to_obp1(memory: &[u8], value: u8) -> (r: Color)
    requires
        memory@.len() > io_regs::OBP1,
        value < 4,
    ensures
        color_value(r) == palette_entry(memory@[io_regs::OBP1 as int], value),
{
    let obp1 = memory[io_regs::OBP1 as usize];
    map_to_palette(obp1, value)
}

} // verus!
