//! A minimal real-time chat relay, verified.
//!
//! The heart of the crate is the relay: authenticated sessions hand in text
//! frames; recognised frames become typed events, the durable ones are
//! handed to a persistence gateway, and every event is fanned out to every
//! live subscriber of a shared broadcast hub. The codec, the shape
//! decisions, the hub's fan-out bookkeeping and the session and relay state
//! machines are verified; the JSON field lookup, the credential signing and
//! the password hashing are trusted to their crates.

pub mod auth;
pub mod codec;
pub mod hub;
pub mod models;
pub mod relay;
pub mod session;
pub mod wire;
