use resource_monitor::metrics::{CpuMetrics, MemoryMetrics, MetricsSnapshot, NetworkMetrics};
use resource_monitor::rpc::{
    next_after_plan, next_after_step, NextAfterPlan, PollerAction, PollerEvent, PollerState,
    RelayEvent, StreamerAction, StreamerEvent, StreamerState, WaitStep,
};
use resource_monitor::storage::MetricsBuffer;

fn sample(ts: u128) -> MetricsSnapshot {
    MetricsSnapshot {
        timestamp_ms: ts,
        cpu: CpuMetrics {
            total_usage_pct: 1000,
            per_core_usage_pct: vec![1000, 2000],
            load_avg_1: 10,
            load_avg_5: 20,
            load_avg_15: 30,
        },
        memory: MemoryMetrics {
            total_bytes: 100,
            used_bytes: 50,
            available_bytes: 50,
        },
        network: NetworkMetrics {
            rx_bytes_total: 1000,
            tx_bytes_total: 2000,
            rx_bytes_per_sec: 10,
            tx_bytes_per_sec: 20,
        },
    }
}

#[test]
fn fast_path_returns_latest_without_waiting() {
    let mut buf = MetricsBuffer::new(10);
    buf.push(sample(2000));
    match next_after_plan(&buf, 1000, 30_000, 60_000) {
        NextAfterPlan::Ready(s) => assert_eq!(s.timestamp_ms, 2000),
        _ => panic!("expected the fast path"),
    }
}

#[test]
fn stale_latest_leads_to_wait() {
    let mut buf = MetricsBuffer::new(10);
    buf.push(sample(500));
    match next_after_plan(&buf, 1000, 30_000, 60_000) {
        NextAfterPlan::Wait(w) => assert_eq!(w, 30_000),
        _ => panic!("expected a wait"),
    }
}

#[test]
fn exhausted_deadline_returns_no_data() {
    let mut buf = MetricsBuffer::new(10);
    buf.push(sample(2000));
    assert!(matches!(next_after_plan(&buf, 0, 30_000, 0), NextAfterPlan::NoData));
}

#[test]
fn wait_is_capped_by_deadline() {
    let buf = MetricsBuffer::new(10);
    match next_after_plan(&buf, 0, 30_000, 250) {
        NextAfterPlan::Wait(w) => assert_eq!(w, 250),
        _ => panic!("expected a wait"),
    }
}

#[test]
fn zero_timeout_waits_one_millisecond() {
    let buf = MetricsBuffer::new(10);
    match next_after_plan(&buf, 0, 0, 60_000) {
        NextAfterPlan::Wait(w) => assert_eq!(w, 1),
        _ => panic!("expected a wait"),
    }
}

#[test]
fn next_after_returns_next_snapshot() {
    // An empty buffer makes the call wait; the first snapshot forwarded by
    // the relay that is newer than `since_ms` is delivered.
    let buf = MetricsBuffer::new(10);
    match next_after_plan(&buf, 0, 1_000, 2_000) {
        NextAfterPlan::Wait(_) => {}
        _ => panic!("expected a wait"),
    }
    match next_after_step(RelayEvent::Received(sample(2000)), 0) {
        WaitStep::Deliver(s) => assert_eq!(s.timestamp_ms, 2000),
        _ => panic!("expected delivery"),
    }
}

#[test]
fn stale_relay_message_keeps_waiting() {
    assert!(matches!(
        next_after_step(RelayEvent::Received(sample(900)), 1000),
        WaitStep::KeepWaiting
    ));
}

#[test]
fn lag_is_not_an_error() {
    assert!(matches!(next_after_step(RelayEvent::Lagged, 0), WaitStep::KeepWaiting));
}

#[test]
fn closed_relay_ends_wait_with_no_data() {
    assert!(matches!(next_after_step(RelayEvent::Closed, 0), WaitStep::NoData));
}

#[test]
fn streamer_advances_cursor_and_republishes() {
    let mut st = StreamerState::new();
    assert_eq!(st.since_ms, 0);
    st.step(StreamerEvent::ConnectSucceeded);
    assert!(st.connected);
    match st.step(StreamerEvent::PollSnapshot(sample(2000))) {
        StreamerAction::Publish(s) => assert_eq!(s.timestamp_ms, 2000),
        _ => panic!("expected a republish"),
    }
    assert_eq!(st.since_ms, 2000);
}

#[test]
fn streamer_clamps_strange_remote_clock() {
    let mut st = StreamerState::new();
    st.step(StreamerEvent::ConnectSucceeded);
    st.step(StreamerEvent::PollSnapshot(sample(u128::MAX)));
    assert_eq!(st.since_ms, u64::MAX);
}

#[test]
fn streamer_backs_off_after_failed_connect() {
    let mut st = StreamerState::new();
    assert!(matches!(st.step(StreamerEvent::ConnectFailed), StreamerAction::Backoff));
    assert!(!st.connected);
}

#[test]
fn streamer_backs_off_after_hard_call_error() {
    let mut st = StreamerState::new();
    st.step(StreamerEvent::ConnectSucceeded);
    assert!(st.connected);
    // A hard RPC error discards the connection and backs off before the
    // next reconnect attempt; the cursor is kept.
    let cursor = st.since_ms;
    assert!(matches!(st.step(StreamerEvent::PollFailed), StreamerAction::Backoff));
    assert!(!st.connected);
    assert_eq!(st.since_ms, cursor);
}

#[test]
fn streamer_no_data_is_steady_state() {
    let mut st = StreamerState::new();
    st.step(StreamerEvent::ConnectSucceeded);
    let cursor = st.since_ms;
    assert!(matches!(st.step(StreamerEvent::PollNoData), StreamerAction::Proceed));
    assert!(st.connected);
    assert_eq!(st.since_ms, cursor);
}

#[test]
fn poller_delivers_and_drops_connection_on_error() {
    let mut st = PollerState::new();
    assert!(!st.connected);
    st.step(PollerEvent::ConnectSucceeded);
    assert!(st.connected);
    match st.step(PollerEvent::LatestSnapshot(sample(77))) {
        PollerAction::Deliver(s) => assert_eq!(s.timestamp_ms, 77),
        _ => panic!("expected a delivery"),
    }
    assert!(matches!(st.step(PollerEvent::LatestEmpty), PollerAction::Idle));
    assert!(st.connected);
    assert!(matches!(st.step(PollerEvent::CallFailed), PollerAction::Idle));
    assert!(!st.connected);
}
