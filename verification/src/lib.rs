//! Synchronization core of a sharded blockchain client.
//!
//! The crate holds the bookkeeping that brings a node's local chain state
//! into agreement with the network: the global sync phase and its
//! transition rules, the per-shard state-snapshot download trackers, the
//! catchup entries that validators keep for upcoming epochs, and the
//! routing of inbound state responses into those trackers.  Chain storage,
//! the phase drivers and the network transport are collaborators: the
//! functions here take their results as plain values and decide what the
//! node does next.
//!
//! Two small independent pieces live beside the coordinator: an invertible
//! Bloom filter used for set reconciliation, and an in-memory compiled
//! contract cache used in tests of the contract runtime.

pub mod actor;
pub mod cache;
pub mod catchup;
pub mod chain_info;
pub mod download;
pub mod ibf;
pub mod peer;
pub mod response;
pub mod sync_status;
