//! What travels between the user interface and the export worker, and the
//! pair of channels it travels on.

pub mod card;
pub mod channel;
pub mod handle;
pub mod message;
pub mod outcome;
