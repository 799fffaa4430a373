//! Consensus coordinator for a single blockchain node.
//!
//! The library holds the verified core of the node: the block model and its
//! deterministic byte codec, the proof-of-work style puzzle engine, and the
//! consensus event loop's decision logic. The surrounding process (network
//! servers, configuration loading, the blocking select over the inbound
//! channel and the block-interval ticker) lives outside the library and
//! drives these functions with plain values.

pub mod block;
pub mod codec;
pub mod config;
pub mod consensus;
pub mod digest;
pub mod engine;
pub mod liveness;
pub mod wire;
