//! Authenticated publish/subscribe transport for slates exchanged with a
//! grinbox relay: addresses, wire messages, the per-connection protocol
//! client, the publisher flow and the subscriber's connection lifecycle.
pub mod address;
pub mod protocol;
pub mod client;
pub mod lifecycle;
pub mod broker;
