//! The snapshot value types: the unit of sampling, storage and distribution.
//!
//! Percentages are held as integers in hundredths of a percent and rates as
//! whole bytes per second, so that every computation over them is exact; the
//! wire format's floating-point fields are derived from these values at the
//! process edge.

use vstd::prelude::*;

verus! {

/// CPU usage of one snapshot. `total_usage_pct` and the per-core entries are
/// in hundredths of a percent (`1234` is 12.34%); the per-core sequence is
/// ordered by core index. The load averages are in hundredths (`150` is a
/// load average of 1.5) and may be 0 on platforms without load-average
/// support.
pub struct CpuMetrics {
    pub total_usage_pct: u32,
    pub per_core_usage_pct: Vec<u32>,
    pub load_avg_1: u32,
    pub load_avg_5: u32,
    pub load_avg_15: u32,
}

/// The mathematical value of a `CpuMetrics`.
#[verifier::ext_equal]
pub struct CpuView {
    pub total_usage_pct: u32,
    pub per_core_usage_pct: Seq<u32>,
    pub load_avg_1: u32,
    pub load_avg_5: u32,
    pub load_avg_15: u32,
}

/// Memory occupancy in bytes. The OS layer does not guarantee
/// `used_bytes <= total_bytes`; consumers deriving percentages must clamp.
#[derive(Clone, Copy)]
pub struct MemoryMetrics {
    pub total_bytes: u64,
    pub used_bytes: u64,
    pub available_bytes: u64,
}

/// Cumulative RX/TX byte counters (monotonic, but they may reset, for
/// example on an interface reset) and the derived instantaneous rates in
/// whole bytes per second.
#[derive(Clone, Copy)]
pub struct NetworkMetrics {
    pub rx_bytes_total: u64,
    pub tx_bytes_total: u64,
    pub rx_bytes_per_sec: u64,
    pub tx_bytes_per_sec: u64,
}

/// One immutable sample of the host's resources; the unit of distribution
/// and storage. `timestamp_ms` is milliseconds since the epoch and is
/// strictly increasing within one sampler's output stream.
pub struct MetricsSnapshot {
    pub timestamp_ms: u128,
    pub cpu: CpuMetrics,
    pub memory: MemoryMetrics,
    pub network: NetworkMetrics,
}

/// The mathematical value of a `MetricsSnapshot`; what every contract over
/// snapshots speaks of.
#[verifier::ext_equal]
pub struct SnapshotView {
    pub timestamp_ms: u128,
    pub cpu: CpuView,
    pub memory: MemoryMetrics,
    pub network: NetworkMetrics,
}

impl View for CpuMetrics {
    type V = CpuView;

    open spec fn view(&self) -> CpuView {
        CpuView {
            total_usage_pct: self.total_usage_pct,
            per_core_usage_pct: self.per_core_usage_pct@,
            load_avg_1: self.load_avg_1,
            load_avg_5: self.load_avg_5,
            load_avg_15: self.load_avg_15,
        }
    }
}

impl View for MetricsSnapshot {
    type V = SnapshotView;

    open spec fn view(&self) -> SnapshotView {
        SnapshotView {
            timestamp_ms: self.timestamp_ms,
            cpu: self.cpu@,
            memory: self.memory,
            network: self.network,
        }
    }
}

impl DeepView for MetricsSnapshot {
    type V = SnapshotView;

    open spec fn deep_view(&self) -> SnapshotView {
        self@
    }
}

impl Clone for CpuMetrics {
    fn clone(&self) -> (r: Self)
        ensures
            r@ == self@,
    {
        let per_core = self.per_core_usage_pct.clone();
        proof {
            assert(per_core@ =~= self.per_core_usage_pct@);
        }
        CpuMetrics {
            total_usage_pct: self.total_usage_pct,
            per_core_usage_pct: per_core,
            load_avg_1: self.load_avg_1,
            load_avg_5: self.load_avg_5,
            load_avg_15: self.load_avg_15,
        }
    }
}

impl Clone for MetricsSnapshot {
    fn clone(&self) -> (r: Self)
        ensures
            r@ == self@,
    {
        MetricsSnapshot {
            timestamp_ms: self.timestamp_ms,
            cpu: self.cpu.clone(),
            memory: self.memory,
            network: self.network,
        }
    }
}

/// A structured error body for read endpoints, for example
/// "no data yet" with not-found semantics.
pub struct ErrorResponse {
    pub error: String,
}

/// Relies on std's `SystemTime::now` and `duration_since(UNIX_EPOCH)`: the
/// wall clock now, in milliseconds since the epoch, or 0 when the system
/// clock reads earlier than the epoch. The result depends on the clock, so
/// nothing is promised of it.
#[verifier::external_body]
pub fn now_timestamp_ms() -> u128 {
    match std::time::SystemTime::now().duration_since(std::time::UNIX_EPOCH) {
        Ok(dur) => dur.as_millis(),
        Err(_) => 0,
    }
}

} // verus!
