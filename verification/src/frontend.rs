//! The part of the user interface that decides: which intents are pending,
//! what a render pass has to send, and how a notification is shown.

pub mod generator_page;
pub mod processor;
