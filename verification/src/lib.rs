//! Decoding of Generation-III save slots: bounds-checked field access,
//! section scanning and game-version inference.

pub mod error;
pub mod field;
pub mod save;
pub mod utils;
