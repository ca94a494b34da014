//! Bingo board generator core.
//!
//! A 9x9 board of goal texts, of which a centred square of side 3 to 9 is
//! active, is turned into one of two export payloads and handed to a worker
//! over a pair of message channels.

pub mod backend;
pub mod bridge;
pub mod export;
pub mod frontend;
pub mod grid;
pub mod text;
