//! Core of a latency/throughput benchmarking tool for JSON-RPC endpoints.
//!
//! The crate holds the measurement engine: cycle number dispensing, per-worker
//! request statistics kept in HDR histograms, the sampling schedule, the
//! recorder that merges worker snapshots into samples and final run statistics,
//! and the histogram codec used to persist results.  All time quantities are
//! carried as nanoseconds in `u64`; the surrounding binary converts wall-clock
//! readings to and from that form.

pub mod bootstrap;
pub mod codec;
pub mod config;
pub mod cycle;
pub mod hist;
pub mod hdrlog;
pub mod interrupt;
pub mod percentile;
pub mod sampler;
pub mod session;
pub mod stats;
pub mod workload;
