//! Verified core of a blockchain event indexer for an NFT marketplace.
//!
//! The library covers the logic of the pipeline: normalizing on-chain
//! addresses, deriving synthetic order ids, decoding marketplace events of
//! three contract dialects into database rows, and projecting those rows
//! into an order-state store with monotonic, idempotent upsert semantics.
//! I/O (the transaction stream, the SQL connection, JSON deserialization)
//! stays outside; the functions here take and return plain values.

pub mod address;
pub mod aptos_utils;
pub mod config;
pub mod decode;
pub mod extractor;
pub mod hashing;
pub mod laws;
pub mod marketplace_storer;
pub mod metadata;
pub mod models;
pub mod onchain_events;
pub mod order_id;
pub mod progress;
pub mod projection;
pub mod store;
pub mod text;
pub mod upgrades;
