//! A cooldown-gated command gateway with a remote-completion relay.
//!
//! The library decides whether a rate-limited command may fire
//! (`cooldown`, `gate`), builds the request document for a remote
//! text-completion endpoint (`request`), recovers the generated text
//! from the raw response body (`extract`), and renders the wait
//! message shown on a denied invocation (`format`).

pub mod cooldown;
pub mod extract;
pub mod format;
pub mod gate;
pub mod request;
pub mod textscan;
