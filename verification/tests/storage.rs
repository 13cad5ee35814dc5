use resource_monitor::metrics::{CpuMetrics, MemoryMetrics, MetricsSnapshot, NetworkMetrics};
use resource_monitor::storage::MetricsBuffer;

fn sample(i: u128) -> MetricsSnapshot {
    MetricsSnapshot {
        timestamp_ms: i,
        cpu: CpuMetrics {
            total_usage_pct: 1000,
            per_core_usage_pct: vec![1000, 2000],
            load_avg_1: 10,
            load_avg_5: 20,
            load_avg_15: 30,
        },
        memory: MemoryMetrics {
            total_bytes: 100,
            used_bytes: 50,
            available_bytes: 50,
        },
        network: NetworkMetrics {
            rx_bytes_total: 1000,
            tx_bytes_total: 2000,
            rx_bytes_per_sec: 10,
            tx_bytes_per_sec: 20,
        },
    }
}

#[test]
fn trims_to_capacity() {
    let mut buf = MetricsBuffer::new(3);
    buf.push(sample(1));
    buf.push(sample(2));
    buf.push(sample(3));
    buf.push(sample(4));
    let hist = buf.history(None);
    assert_eq!(hist.len(), 3);
    assert_eq!(hist[0].timestamp_ms, 2);
    assert_eq!(hist[2].timestamp_ms, 4);
    assert_eq!(buf.latest().unwrap().timestamp_ms, 4);
}

#[test]
fn empty_buffer_has_no_latest() {
    let buf = MetricsBuffer::new(10);
    assert!(buf.latest().is_none());
    assert_eq!(buf.history(None).len(), 0);
}

#[test]
fn history_keeps_insertion_order() {
    let mut buf = MetricsBuffer::new(10);
    buf.push(sample(1000));
    buf.push(sample(2000));
    buf.push(sample(3000));
    let hist = buf.history(None);
    assert_eq!(hist.len(), 3);
    assert_eq!(hist[0].timestamp_ms, 1000);
    assert_eq!(hist[1].timestamp_ms, 2000);
    assert_eq!(hist[2].timestamp_ms, 3000);
}

#[test]
fn history_limit_returns_newest() {
    let mut buf = MetricsBuffer::new(10);
    buf.push(sample(1000));
    buf.push(sample(2000));
    buf.push(sample(3000));
    let hist = buf.history(Some(2));
    assert_eq!(hist.len(), 2);
    assert_eq!(hist[0].timestamp_ms, 2000);
    assert_eq!(hist[1].timestamp_ms, 3000);
}

#[test]
fn history_limit_larger_than_len() {
    let mut buf = MetricsBuffer::new(10);
    buf.push(sample(1000));
    let hist = buf.history(Some(5));
    assert_eq!(hist.len(), 1);
    assert_eq!(hist[0].timestamp_ms, 1000);
}

#[test]
fn exactly_at_capacity_keeps_all() {
    let mut buf = MetricsBuffer::new(3);
    buf.push(sample(1));
    buf.push(sample(2));
    buf.push(sample(3));
    let hist = buf.history(None);
    assert_eq!(hist.len(), 3);
    assert_eq!(hist[0].timestamp_ms, 1);
    assert_eq!(hist[2].timestamp_ms, 3);
}

#[test]
fn repeated_reads_are_identical() {
    let mut buf = MetricsBuffer::new(5);
    buf.push(sample(1000));
    buf.push(sample(2000));
    let l1 = buf.latest().unwrap();
    let l2 = buf.latest().unwrap();
    assert_eq!(l1.timestamp_ms, l2.timestamp_ms);
    let h1 = buf.history(Some(2));
    let h2 = buf.history(Some(2));
    assert_eq!(h1.len(), h2.len());
    for (a, b) in h1.iter().zip(h2.iter()) {
        assert_eq!(a.timestamp_ms, b.timestamp_ms);
    }
}
