//! Verified core of a Cloudreve desktop/mobile client: network settings,
//! request construction, reply interpretation, persistent settings and tokens,
//! client pools and the helpers they rest on.
pub mod api;
pub mod client;
pub mod commands;
pub mod hc;
pub mod iroh;
pub mod laws;
pub mod media;
pub mod net;
pub mod path;
pub mod proto;
pub mod rendezvous;
pub mod service;
pub mod signal;
pub mod state;
pub mod store;
pub mod text;
