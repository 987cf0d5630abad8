//! The interpreter's pixel pipeline, which reads video RAM directly.

pub mod registers;
pub mod bg_fetcher;
