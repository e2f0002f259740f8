//! A WebRTC-to-TCP tunnel gateway: the configuration store and the state
//! machines that decide how a session is negotiated, how each data channel
//! is bridged to the upstream TCP service, how bytes are relayed in both
//! directions, and when a session is torn down.

pub mod channel;
pub mod config;
pub mod negotiation;
pub mod relay;
pub mod supervisor;
