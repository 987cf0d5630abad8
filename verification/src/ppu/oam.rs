//! Objects (sprites) in object attribute memory.
use vstd::prelude::*;
use crate::bits::{bit_of, lemma_bit_masks};

verus! {

pub const OBJ_SIZE: usize = 4;
pub const OAM_ADDR: usize = 0xFE00;
/// Number of objects in OAM.
pub const NUM_OBJS: usize = 40;
/// Most objects the PPU selects for one scanline.
pub const MAX_OBJS_PER_LINE: usize = 10;

#[derive(Copy, Clone, PartialEq, Eq, Structural, Debug)]
pub struct Obj {
    pub y_pos: u8,
    pub x_pos: u8,
    pub tile_index: u8,
    pub attributes: u8,
}

/// The object described by the four bytes at `start`.
pub open spec fn obj_at(memory: Seq<u8>, start: int) -> Obj {
    Obj {
        y_pos: memory[start],
        x_pos: memory[start + 1],
        tile_index: memory[start + 2],
        attributes: memory[start + 3],
    }
}

/// Object `index` of OAM.
pub open spec fn nth_obj_spec(memory: Seq<u8>, index: int) -> Obj {
    obj_at(memory, OAM_ADDR + index * OBJ_SIZE)
}

/// An 8-pixel-tall object covers scanline `y` when `y_pos - 16 <= y < y_pos - 8`
/// (an object's stored Y is its screen Y plus 16).
pub open spec fn covers_line(obj: Obj, y: u8) -> bool {
    obj.y_pos <= y + 16 < obj.y_pos + 8
}

/// The objects among the first `n` of OAM that cover line `ly`, in OAM order.
pub open spec fn covering_objs(memory: Seq<u8>, ly: u8, n: nat) -> Seq<Obj>
    decreases n,
{
    if n == 0 {
        Seq::empty()
    } else {
        let prev = covering_objs(memory, ly, (n - 1) as nat);
        let obj = nth_obj_spec(memory, n - 1);
        if covers_line(obj, ly) { prev.push(obj) } else { prev }
    }
}

/// What an OAM scan of line `ly` selects: the first ten objects covering it.
pub open spec fn oam_scan_spec(memory: Seq<u8>, ly: u8) -> Seq<Obj> {
    let all = covering_objs(memory, ly, NUM_OBJS as nat);
    if all.len() <= MAX_OBJS_PER_LINE { all } else { all.take(MAX_OBJS_PER_LINE as int) }
}

impl Obj {
    pub fn from_bytes(bytes: &[u8; 4]) -> (r: Obj)
        ensures
            r == obj_at(bytes@, 0),
    {
        Obj { y_pos: bytes[0], x_pos: bytes[1], tile_index: bytes[2], attributes: bytes[3] }
    }

    /// Whether this object covers scanline `y` (8x8 objects only).
    pub fn intersects_y(&self, y: u8) -> (r: bool)
        ensures
            r == covers_line(*self, y),
    {
        let screen_y: u16 = y as u16 + 16;
        let top: u16 = self.y_pos as u16;
        top <= screen_y && screen_y < top + 8
    }

    /// Attribute bit 7: the background and window are drawn over this object.
    pub fn priority(&self) -> (r: bool)
        ensures
            r == bit_of(self.attributes, 7),
    {
        proof { lemma_bit_masks(self.attributes); }
        self.attributes & 0b1000_0000 == 0b1000_0000
    }

    /// Attribute bit 6: the object is flipped vertically.
    pub fn y_flip(&self) -> (r: bool)
        ensures
            r == bit_of(self.attributes, 6),
    {
        proof { lemma_bit_masks(self.attributes); }
        self.attributes & 0b0100_0000 == 0b0100_0000
    }

    /// Attribute bit 5: the object is flipped horizontally.
    pub fn x_flip(&self) -> (r: bool)
        ensures
            r == bit_of(self.attributes, 5),
    {
        proof { lemma_bit_masks(self.attributes); }
        self.attributes & 0b0010_0000 == 0b0010_0000
    }

    /// Attribute bit 4: the object uses OBP1 (otherwise OBP0).
    pub fn palette(&self) -> (r: bool)
        ensures
            r == bit_of(self.attributes, 4),
    {
        proof { lemma_bit_masks(self.attributes); }
        self.attributes & 0b0001_0000 == 0b0001_0000
    }
}

pub fn nth_obj(memory: &[u8], index: usize) -> (r: Obj)
    requires
        OAM_ADDR + index * OBJ_SIZE + OBJ_SIZE <= memory@.len(),
    ensures
        r == nth_obj_spec(memory@, index as int),
{
    let _len = memory.len();
    let obj_start = OAM_ADDR + index * OBJ_SIZE;
    Obj {
        y_pos: memory[obj_start],
        x_pos: memory[obj_start + 1],
        tile_index: memory[obj_start + 2],
        attributes: memory[obj_start + 3],
    }
}

/// Select the objects drawn on scanline `ly`: the first ten, in OAM order,
/// that cover it.
pub fn oam_scan(memory: &[u8], ly: u8) -> (r: Vec<Obj>)
    requires
        OAM_ADDR + NUM_OBJS * OBJ_SIZE <= memory@.len(),
    ensures
        r@ == oam_scan_spec(memory@, ly),
        r@.len() <= MAX_OBJS_PER_LINE,
{
    let mut out: Vec<Obj> = Vec::with_capacity(MAX_OBJS_PER_LINE);
    let mut index: usize = 0;
    while index < NUM_OBJS
        invariant
            index <= NUM_OBJS,
            OAM_ADDR + NUM_OBJS * OBJ_SIZE <= memory@.len(),
            out@.len() <= MAX_OBJS_PER_LINE,
            covering_objs(memory@, ly, index as nat).len() <= MAX_OBJS_PER_LINE ==> out@
                == covering_objs(memory@, ly, index as nat),
            covering_objs(memory@, ly, index as nat).len() > MAX_OBJS_PER_LINE ==> out@
                == covering_objs(memory@, ly, index as nat).take(MAX_OBJS_PER_LINE as int),
        decreases NUM_OBJS - index,
    {
        let obj = nth_obj(memory, index);
        let ghost prev = covering_objs(memory@, ly, index as nat);
        let ghost next = covering_objs(memory@, ly, (index + 1) as nat);
        assert(next == if covers_line(obj, ly) { prev.push(obj) } else { prev });
        if obj.intersects_y(ly) && out.len() < MAX_OBJS_PER_LINE {
            out.push(obj);
        }
        proof {
            if covers_line(obj, ly) && prev.len() >= MAX_OBJS_PER_LINE {
                assert(prev.push(obj).take(MAX_OBJS_PER_LINE as int) =~= prev.take(
                    MAX_OBJS_PER_LINE as int,
                ));
                if prev.len() == MAX_OBJS_PER_LINE {
                    assert(prev.take(MAX_OBJS_PER_LINE as int) =~= prev);
                }
            }
        }
        index += 1;
    }
    out
}

} // verus!
