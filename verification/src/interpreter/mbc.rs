//! Memory bank controllers: the cartridge hardware that maps ROM and SRAM
//! banks into the CPU's address space.

pub mod mbc1;
pub mod mbc2;
pub mod mbc5;
pub mod mbc3;
pub mod dispatcher;
