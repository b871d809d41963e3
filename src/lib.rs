//! A drop-event relay with a single-slot inbox.
//!
//! The inbox holds the paths of the most recent drop batch until a reader
//! takes them; the relay turns each window drop event into an inbox update
//! and at most one notification for the front-end.
pub mod inbox;
pub mod relay;
pub mod laws;
