//! Geometry of the board: which cells of the 9x9 store are active for a
//! grid size, and in which order they are read out.

pub mod board;
pub mod extract;
pub mod size;
