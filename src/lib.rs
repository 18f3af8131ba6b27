//! A gossip node: a pool of outbound peer links with liveness management,
//! the periodic heartbeat broadcast, and the inbound frame protocol.

pub mod config;
pub mod gossip;
pub mod handshake;
pub mod inbound;
pub mod pool;
pub mod probe;
pub mod text;
pub mod uptime;
