//! A proof-of-existence claim registry.
//!
//! The registry keeps a map from an opaque byte string (the "proof") to the
//! account that registered it and the block number current at registration
//! time. Three operations act on the map: `create_claim`, `revoke_claim` and
//! `transfer`. Each either succeeds, mutates the map in exactly one place and
//! returns the event it emits, or fails with a typed error and leaves the
//! registry untouched.

pub mod errors;
pub mod events;
pub mod laws;
pub mod registry;
pub mod rules;
pub mod types;
