//! The SM83 interpreter: CPU, memory bank controllers and OAM DMA.

pub mod dma;
pub mod mbc;
pub mod cpu;
pub mod bus;
pub mod ppu;
