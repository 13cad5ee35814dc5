//! The sampler: it turns one raw counter reading per tick into a
//! rate-normalized snapshot, synthesizing the warm-up tick's interval,
//! skipping ticks with non-positive elapsed time, and zeroing a rate whose
//! counter went backwards instead of ever producing a negative one.

use vstd::arithmetic::div_mod::{lemma_div_is_ordered, lemma_div_multiples_vanish};
use vstd::prelude::*;

use crate::metrics::{CpuMetrics, MemoryMetrics, MetricsSnapshot, NetworkMetrics};

verus! {

/// The sum of a sequence of per-core percentages (in hundredths of a
/// percent).
pub open spec fn sum_pct(s: Seq<u32>) -> int
    decreases s.len(),
{
    if s.len() == 0 {
        0
    } else {
        sum_pct(s.drop_last()) + s.last()
    }
}

/// The arithmetic mean of the per-core percentages, rounded down; 0 when no
/// cores were reported.
pub open spec fn mean_pct(s: Seq<u32>) -> int {
    if s.len() == 0 {
        0
    } else {
        sum_pct(s) / s.len() as int
    }
}

/// The exact rate, in bytes per second, derived from two cumulative counter
/// readings `dt_ms` milliseconds apart: the counter delta scaled to one
/// second when the counter grew, and exactly 0 when it went backwards (a
/// reset), never a negative value.
pub open spec fn rate_model(prev: u64, cur: u64, dt_ms: u64) -> int
    recommends
        dt_ms > 0,
{
    if cur >= prev {
        ((cur - prev) * 1000) / dt_ms as int
    } else {
        0
    }
}

/// `rate_model`, clamped into `u64`.
pub open spec fn clamped_rate(prev: u64, cur: u64, dt_ms: u64) -> u64 {
    if rate_model(prev, cur, dt_ms) > u64::MAX {
        u64::MAX
    } else {
        rate_model(prev, cur, dt_ms) as u64
    }
}

/// One raw reading of the metrics source, already reduced to plain values:
/// per-core CPU percentages in hundredths of a percent, load averages in
/// hundredths, memory in bytes, and the cumulative network byte counters.
pub struct RawReading {
    pub per_core_usage_pct: Vec<u32>,
    pub load_avg_1: u32,
    pub load_avg_5: u32,
    pub load_avg_15: u32,
    pub total_memory_bytes: u64,
    pub used_memory_bytes: u64,
    pub available_memory_bytes: u64,
    pub rx_bytes_total: u64,
    pub tx_bytes_total: u64,
}

pub struct AggregatorConfig {
    /// The sampling interval in milliseconds; also the synthesized elapsed
    /// time of the warm-up sample.
    pub interval_ms: u64,
}

impl AggregatorConfig {
    pub fn new(interval_ms: u64) -> (r: Self)
        ensures
            r.interval_ms == interval_ms,
    {
        AggregatorConfig { interval_ms }
    }
}

/// The sampler's state machine: `WarmingUp` until the first sample is
/// published, then `Steady`, carrying the previous tick's counter totals as
/// the delta baseline.
pub struct Aggregator {
    config: AggregatorConfig,
    first: bool,
    last_rx_total: u64,
    last_tx_total: u64,
}

impl Aggregator {
    /// Whether the sampler has yet to publish its first sample.
    pub closed spec fn warming_up(&self) -> bool {
        self.first
    }

    /// The RX counter total of the last published sample.
    pub closed spec fn last_rx(&self) -> u64 {
        self.last_rx_total
    }

    /// The TX counter total of the last published sample.
    pub closed spec fn last_tx(&self) -> u64 {
        self.last_tx_total
    }

    pub closed spec fn interval_ms(&self) -> u64 {
        self.config.interval_ms
    }

    pub fn new(config: AggregatorConfig) -> (r: Self)
        ensures
            r.warming_up(),
            r.interval_ms() == config.interval_ms,
    {
        Aggregator { config, first: true, last_rx_total: 0, last_tx_total: 0 }
    }

    /// One tick of the sampling loop: builds the snapshot for the reading
    /// `raw` taken `elapsed_ms` after the previous tick, at wall-clock time
    /// `now_ms`. A steady-state tick with no elapsed time is skipped
    /// entirely (clock skew); the warm-up tick instead uses the configured
    /// interval and carries rates of exactly 0. A snapshot is returned
    /// exactly once per accepted tick; publishing it is the caller's last
    /// action of the iteration.
    pub fn step(&mut self, raw: RawReading, elapsed_ms: u64, now_ms: u128) -> (r: Option<
        MetricsSnapshot,
    >)
        ensures
            r is None <==> (!old(self).warming_up() && elapsed_ms == 0),
            r is None ==> *final(self) == *old(self),
            (r matches Some(s) ==> {
                &&& s@.timestamp_ms == now_ms
                &&& s@.cpu.per_core_usage_pct == raw.per_core_usage_pct@
                &&& s@.cpu.total_usage_pct as int == mean_pct(raw.per_core_usage_pct@)
                &&& s@.cpu.load_avg_1 == raw.load_avg_1
                &&& s@.cpu.load_avg_5 == raw.load_avg_5
                &&& s@.cpu.load_avg_15 == raw.load_avg_15
                &&& s@.memory.total_bytes == raw.total_memory_bytes
                &&& s@.memory.used_bytes == raw.used_memory_bytes
                &&& s@.memory.available_bytes == raw.available_memory_bytes
                &&& s@.network.rx_bytes_total == raw.rx_bytes_total
                &&& s@.network.tx_bytes_total == raw.tx_bytes_total
            }),
            old(self).warming_up() ==> (r matches Some(s) ==> s@.network.rx_bytes_per_sec == 0
                && s@.network.tx_bytes_per_sec == 0),
            !old(self).warming_up() && elapsed_ms > 0 ==> (r matches Some(s) ==> {
                &&& s@.network.rx_bytes_per_sec == clamped_rate(
                    old(self).last_rx(),
                    raw.rx_bytes_total,
                    elapsed_ms,
                )
                &&& s@.network.tx_bytes_per_sec == clamped_rate(
                    old(self).last_tx(),
                    raw.tx_bytes_total,
                    elapsed_ms,
                )
                &&& raw.rx_bytes_total < old(self).last_rx() ==> s@.network.rx_bytes_per_sec == 0
                &&& raw.tx_bytes_total < old(self).last_tx() ==> s@.network.tx_bytes_per_sec == 0
            }),
            r is Some ==> {
                &&& !final(self).warming_up()
                &&& final(self).last_rx() == raw.rx_bytes_total
                &&& final(self).last_tx() == raw.tx_bytes_total
                &&& final(self).interval_ms() == old(self).interval_ms()
            },
    {
        if !self.first && elapsed_ms == 0 {
            // Non-positive elapsed time: skip the tick rather than divide
            // by zero.
            return None;
        }
        let total_pct = mean_usage(&raw.per_core_usage_pct);
        let rx_rate: u64 = if self.first {
            0
        } else {
            network_rate(self.last_rx_total, raw.rx_bytes_total, elapsed_ms)
        };
        let tx_rate: u64 = if self.first {
            0
        } else {
            network_rate(self.last_tx_total, raw.tx_bytes_total, elapsed_ms)
        };
        let snapshot = MetricsSnapshot {
            timestamp_ms: now_ms,
            cpu: CpuMetrics {
                total_usage_pct: total_pct,
                per_core_usage_pct: raw.per_core_usage_pct,
                load_avg_1: raw.load_avg_1,
                load_avg_5: raw.load_avg_5,
                load_avg_15: raw.load_avg_15,
            },
            memory: MemoryMetrics {
                total_bytes: raw.total_memory_bytes,
                used_bytes: raw.used_memory_bytes,
                available_bytes: raw.available_memory_bytes,
            },
            network: NetworkMetrics {
                rx_bytes_total: raw.rx_bytes_total,
                tx_bytes_total: raw.tx_bytes_total,
                rx_bytes_per_sec: rx_rate,
                tx_bytes_per_sec: tx_rate,
            },
        };
        self.last_rx_total = raw.rx_bytes_total;
        self.last_tx_total = raw.tx_bytes_total;
        self.first = false;
        Some(snapshot)
    }
}

/// The mean of the per-core percentages, exactly `mean_pct` of the
/// sequence.
pub fn mean_usage(cores: &Vec<u32>) -> (r: u32)
    ensures
        r as int == mean_pct(cores@),
{
    let n = cores.len();
    if n == 0 {
        return 0;
    }
    let mut sum: u128 = 0;
    let mut i: usize = 0;
    while i < n
        invariant
            i <= n,
            n == cores@.len(),
            sum == sum_pct(cores@.subrange(0, i as int)),
            sum <= (i as int) * (u32::MAX as int),
        decreases n - i,
    {
        proof {
            assert(cores@.subrange(0, i as int + 1).drop_last() =~= cores@.subrange(0, i as int));
            assert(cores@.subrange(0, i as int + 1).last() == cores@[i as int]);
        }
        sum = sum + cores[i] as u128;
        i = i + 1;
    }
    proof {
        assert(cores@.subrange(0, n as int) =~= cores@);
        assert(sum <= (n as int) * (u32::MAX as int));
        lemma_div_is_ordered(sum as int, (n as int) * (u32::MAX as int), n as int);
        lemma_div_multiples_vanish(u32::MAX as int, n as int);
    }
    let mean = sum / (n as u128);
    mean as u32
}

/// The instantaneous network rate from two consecutive counter readings:
/// exactly `rate_model`, clamped into `u64`. A counter that went backwards
/// (interface reset) yields exactly 0, never a negative rate.
pub fn network_rate(prev: u64, cur: u64, dt_ms: u64) -> (r: u64)
    requires
        dt_ms > 0,
    ensures
        r == clamped_rate(prev, cur, dt_ms),
        cur < prev ==> r == 0,
{
    if cur < prev {
        return 0;
    }
    let delta = cur - prev;
    let scaled = (delta as u128) * 1000 / (dt_ms as u128);
    if scaled > u64::MAX as u128 {
        u64::MAX
    } else {
        scaled as u64
    }
}

} // verus!
