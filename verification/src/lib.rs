//! Decision logic for an asynchronous pseudo-terminal adapter.
//!
//! A PTY master descriptor is driven from a readiness-based event loop; the
//! loop's I/O calls stay outside this crate, while every decision the adapter
//! makes — when to suspend, when to retry a would-block attempt, when an
//! operation completes and with what, how the descriptor is configured and how
//! OS failures surface — is made by the verified functions here.

pub mod session;
pub mod stream;
