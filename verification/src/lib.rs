//! A lightweight host-resource telemetry core: it turns raw CPU, memory and
//! network counter readings into rate-normalized snapshots, keeps a bounded
//! rolling history of them, fans each new snapshot out to storage and to a
//! broadcast relay, and answers `latest`, `history` and long-poll `next_after`
//! queries over the retained window.

pub mod aggregator;
pub mod api;
pub mod bus;
pub mod config;
pub mod metrics;
pub mod rpc;
pub mod storage;
