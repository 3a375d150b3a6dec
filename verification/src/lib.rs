//! Userland event pipeline of a Linux security telemetry daemon.
//!
//! Kernel probes emit raw event records through per-CPU ring buffers. The
//! producer stamps each record with a batch number, pre-processes
//! time-critical records, fans out correlation records, and drains the
//! timestamp-ordered pipe one batch behind the newest. The consumer keeps a
//! process-lineage table, enriches records with file hashes (cached per mount
//! namespace), resolved DNS names and container identity, evaluates
//! indicator-of-compromise matches, and decides which records are emitted.

pub mod cache;
pub mod config;
pub mod consumer;
pub mod containers;
pub mod digests;
pub mod dns;
pub mod events;
pub mod output;
pub mod probes;
pub mod producer;
pub mod scanner;
pub mod task;
pub mod text;
