//! Clients bound to a peer found through the signal server.
pub mod pool;
