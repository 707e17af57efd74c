//! Shred ingestion pipeline: a verified wire-format decoder for gossip-relayed
//! block-propagation packets ("shreds"), together with the pure decision logic
//! of the surrounding pipeline — receive-loop state machine, throughput
//! counters, plugin fan-out, and peer-discovery progress tracking.
//!
//! Socket reads, sleeps, and log output live in the embedding application;
//! this crate computes, from plain values to plain values.

pub mod gossip;
pub mod output;
pub mod receiver;
pub mod shred;
pub mod stats;
pub mod types;
