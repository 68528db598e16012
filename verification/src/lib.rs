//! Throughput measurements of keyed containers under random integer workloads.
//!
//! The library drives an ordered map and a hash map through timed batches of
//! insertions, lookups and insert/remove pairs, and hands back the raw
//! measurements as plain values.

pub mod container;
pub mod keys;
pub mod clock;
pub mod workload;
pub mod throughput;
pub mod churn;
pub mod laws;
pub mod runner;
