//! The servo controller's command, reply and event vocabulary, typed.
//!
//! The broadcast and notifier plumbing that fans these out to waiting
//! tasks belongs to the asynchronous shell; this module fixes what goes
//! on the wire.

pub mod commands;
pub mod events;
pub mod replies;
