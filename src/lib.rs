//! The update-ingestion and command-dispatch core of a Telegram bot client: the offset of
//! the long poll, the command table and the routing of each message, the response
//! envelope, and the framing of outbound requests. Transport, timers and handler tasks
//! live outside; they hand this library plain values and carry out what it decides.
use vstd::prelude::*;

pub mod bot;
pub mod commands;
pub mod envelope;
pub mod json;
pub mod offset;
pub mod request;
pub mod router;
pub mod text;
pub mod updates;

verus! {

} // verus!
