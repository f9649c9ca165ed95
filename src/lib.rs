//! Keeps one DNS record's content in step with the caller's public IP address.
//!
//! The library holds the decisions: when a cached snapshot may stand in for the
//! provider, which remote record is the one tracked, what the provider is asked,
//! how its answers are validated, and which IP-echo source is asked next.
//! Network, files and the process around them are left to the caller.
pub mod clock;
pub mod cache;
pub mod provider;
pub mod sync;
pub mod resolver;
