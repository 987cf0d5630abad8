//! A Game Boy (SM83) emulator core: CPU, memory bank controllers, OAM DMA,
//! and the pixel processing unit, with contracts checked by Verus.

pub mod hw_constants;
pub mod io_regs;
pub mod bits;
pub mod ppu;
pub mod interpreter;
pub mod jit;
pub mod app_state;
