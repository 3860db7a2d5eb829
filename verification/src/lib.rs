//! Core logic of a small desktop front-end to a local inference daemon.
//!
//! The library holds the data types of the command layer (conversation
//! turns, chat requests, streamed response fragments), the computation of
//! the model-listing command, and the decision logic of the streaming chat
//! relay as an event-driven state machine. The surrounding process — the
//! window shell, the HTTP client for the daemon, and the UI event channel —
//! performs the I/O and drives the state machine with the events it
//! observes.

use vstd::prelude::*;
use vstd::string::StringExecFns;

pub mod message;
pub mod models;
pub mod relay;

verus! {

/// Greeting template kept from the application shell: formats a fixed
/// salutation around the given name.
pub fn greet(name: &str) -> (r: String)
    ensures
        r@ == "Hello, "@ + name@ + "! You've been greeted from Rust!"@,
{
    String::from_str("Hello, ").concat(name).concat("! You've been greeted from Rust!")
}

} // verus!
