//! What a front end keeps of a running console, and turning the LCD's
//! greyscale values into RGBA frame pixels.
use vstd::prelude::*;
use crate::interpreter::cpu::Cpu;

verus! {

pub struct AppState {
    pub mgb_state: Cpu,
    /// Greyscale values the LCD shows, one per pixel.
    pub lcd_buffer: Vec<u8>,
    /// The clock value at which the next frame's VBlank is due.
    pub next_vblank: u64,
}

/// Byte `i` of an RGBA frame showing `lcd`: each pixel's greyscale value in
/// red, green and blue, and full alpha.
pub open spec fn rgba_byte(lcd: Seq<u8>, i: int) -> u8 {
    if i % 4 == 3 { 0xFF } else { lcd[i / 4] }
}

impl AppState {
    /// Draw the LCD into `frame`, four bytes (RGBA) per pixel; bytes past the
    /// last whole pixel are left as they are.
    pub fn draw(&self, frame: &mut [u8])
        requires
            old(frame)@.len() / 4 <= self.lcd_buffer@.len(),
        ensures
            final(frame)@.len() == old(frame)@.len(),
            forall|i: int|
                0 <= i < final(frame)@.len() ==> #[trigger] final(frame)@[i] == if i < old(frame)@.len() / 4 * 4 {
                    rgba_byte(self.lcd_buffer@, i)
                } else {
                    old(frame)@[i]
                },
    {
        let len = frame.len();
        let pixels = len / 4;
        let mut p: usize = 0;
        while p < pixels
            invariant
                len == old(frame)@.len(),
                pixels == len / 4,
                pixels <= self.lcd_buffer@.len(),
                p <= pixels,
                frame@.len() == old(frame)@.len(),
                forall|i: int|
                    0 <= i < frame@.len() ==> #[trigger] frame@[i] == if i < p * 4 {
                        rgba_byte(self.lcd_buffer@, i)
                    } else {
                        old(frame)@[i]
                    },
            decreases pixels - p,
        {
            let greyscale = self.lcd_buffer[p];
            assert(4 * p + 3 < len) by (nonlinear_arith)
                requires
                    p < pixels,
                    pixels == len / 4,
            ;
            let base: usize = 4 * p;
            frame[base] = greyscale;
            frame[base + 1] = greyscale;
            frame[base + 2] = greyscale;
            frame[base + 3] = 0xFF;
            proof {
                assert forall|i: int| 0 <= i < frame@.len() implies #[trigger] frame@[i] == if i < (p + 1) * 4 {
                    rgba_byte(self.lcd_buffer@, i)
                } else {
                    old(frame)@[i]
                } by {
                    if 4 * p <= i < 4 * p + 4 {
                        assert(i / 4 == p as int);
                        assert(i % 4 == i - 4 * p);
                    }
                }
            }
            p += 1;
        }
    }
}

} // verus!
