//! A hash-locked escrow: a depositor locks a fixed deposit under the SHA-256
//! commitment of a secret, and releases it by presenting the secret again.

pub mod error;
pub mod record;

pub mod digest;
pub mod processor;
pub mod laws;
