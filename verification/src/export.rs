//! The two export payloads that a board is shaped into.

pub mod bingo_sync;
pub mod lockout_live;
