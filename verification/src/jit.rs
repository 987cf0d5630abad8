//! Bookkeeping of the recompiler that turns blocks of SM83 code into
//! WebAssembly: which WebAssembly locals hold which SM83 registers, the
//! checkpoints at which a block can be left, and the block cache's keys.

pub mod registers;
pub mod codegen;
pub mod cache;
