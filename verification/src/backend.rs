//! The export worker: what it does with each request, and what it tells
//! the user interface afterwards. Writing the file is left to the caller.

pub mod clock;
pub mod export;
pub mod state;
