//! Attested, sharded ledger-query subsystem.
//!
//! A client asks whether one-time spend markers ("key images") have been
//! consumed on a blockchain ledger, and fetches block and output data,
//! without revealing to any single server which markers it cares about.
//! This crate holds the query layer's verified logic:
//!
//! - classification of connection failures into retry / reattest / fatal
//!   outcomes, and the bounded retry policy built on it ([`errors`],
//!   [`retry`]);
//! - the epoch-based sharding strategy that splits a block range into
//!   per-shard sub-queries ([`sharding`]);
//! - the per-shard key-image query and the watcher-backed timestamp
//!   resolution it delegates to ([`store`], [`watcher`]);
//! - the router that merges per-shard responses into one logically
//!   consistent answer, failing closed when any shard is missing
//!   ([`router`]);
//! - the untrusted read path for non-secret block and output data
//!   ([`ledger`]).
//!
//! Transport, attestation handshakes and the enclave's oblivious lookup
//! structure are outside collaborators: the types here carry what the query
//! logic reads of them as plain values, and the contracts state exactly what
//! each answer contains.

pub mod errors;
pub mod ledger;
pub mod retry;
pub mod router;
pub mod sharding;
pub mod store;
pub mod types;
pub mod watcher;
