//! The request/response service logic: the `history` read with its
//! filter-then-truncate rule, the two-phase long-poll decision behind
//! `next_after`, and the client-side poller and streamer state machines.
//! The transport, the timers and the actual waiting live outside the
//! library; every decision they act on is taken here.

use vstd::prelude::*;

use crate::metrics::MetricsSnapshot;
use crate::storage::{filter_window, window_spec, MetricsBuffer};

verus! {

/// How long one long-poll call waits for a new snapshot, in milliseconds.
pub const LONG_POLL_MS: u64 = 30_000;

/// How much longer than the long-poll wait a streamer's request deadline is
/// set, in milliseconds.
pub const LONG_POLL_DEADLINE_MARGIN_MS: u64 = 1_000;

/// How long the streamer backs off after a failed connect attempt, in
/// milliseconds.
pub const RECONNECT_BACKOFF_MS: u64 = 500;

/// The `history` operation: the stored window filtered to entries with
/// `timestamp_ms >= since_ms`, then truncated to the `limit` newest
/// matching entries, oldest first.
pub fn history_response(
    buffer: &MetricsBuffer,
    limit: Option<usize>,
    since_ms: Option<u64>,
) -> (r: Vec<MetricsSnapshot>)
    ensures
        r.deep_view() == window_spec(buffer@, since_ms, None, limit),
{
    let all = buffer.history(None);
    filter_window(all, since_ms, None, limit)
}

/// What a long-poll call decides before any waiting happens.
pub enum NextAfterPlan {
    /// Respond "no data" at once: the caller's deadline is already spent.
    NoData,
    /// Fast path: the buffer's latest snapshot is already newer than
    /// `since_ms`; respond with it at once, without waiting.
    Ready(MetricsSnapshot),
    /// Subscribe to the broadcast relay and wait up to this many
    /// milliseconds for a newer snapshot.
    Wait(u64),
}

/// The bounded wait of one long-poll call: the requested timeout (raised to
/// at least one millisecond), capped by what remains of the caller's
/// deadline.
pub open spec fn wait_budget(timeout_ms: u64, deadline_budget_ms: u64) -> u64 {
    let want: u64 = if timeout_ms >= 1 {
        timeout_ms
    } else {
        1
    };
    if want <= deadline_budget_ms {
        want
    } else {
        deadline_budget_ms
    }
}

/// The pre-wait phase of `next_after(since_ms, timeout_ms)`, with
/// `deadline_budget_ms` milliseconds left of the caller's deadline: "no
/// data" when the deadline is spent, the buffer's latest snapshot when it
/// is already newer than `since_ms`, and otherwise the bounded wait to
/// perform. The wait never exceeds the requested timeout nor what remains
/// of the deadline.
pub fn next_after_plan(
    buffer: &MetricsBuffer,
    since_ms: u64,
    timeout_ms: u64,
    deadline_budget_ms: u64,
) -> (r: NextAfterPlan)
    ensures
        r is NoData <==> deadline_budget_ms == 0,
        (r matches NextAfterPlan::Ready(s) ==> {
            &&& buffer.latest_spec() == Some(s@)
            &&& s@.timestamp_ms > since_ms
        }),
        deadline_budget_ms > 0 && (match buffer.latest_spec() {
            Some(v) => v.timestamp_ms > since_ms,
            None => false,
        }) ==> r is Ready,
        (r matches NextAfterPlan::Wait(w) ==> {
            &&& w == wait_budget(timeout_ms, deadline_budget_ms)
            &&& 1 <= w <= deadline_budget_ms
            &&& timeout_ms > 0 ==> w <= timeout_ms
        }),
        deadline_budget_ms > 0 && (match buffer.latest_spec() {
            Some(v) => v.timestamp_ms <= since_ms,
            None => true,
        }) ==> r is Wait,
{
    if deadline_budget_ms == 0 {
        return NextAfterPlan::NoData;
    }
    let want: u64 = if timeout_ms >= 1 {
        timeout_ms
    } else {
        1
    };
    let wait: u64 = if want <= deadline_budget_ms {
        want
    } else {
        deadline_budget_ms
    };
    match buffer.latest() {
        Some(snap) => {
            if snap.timestamp_ms > since_ms as u128 {
                NextAfterPlan::Ready(snap)
            } else {
                NextAfterPlan::Wait(wait)
            }
        },
        None => NextAfterPlan::Wait(wait),
    }
}

/// One message observed from the broadcast relay while a long-poll call
/// waits.
pub enum RelayEvent {
    /// The relay delivered a forwarded snapshot.
    Received(MetricsSnapshot),
    /// The receiver fell behind the relay's retained window. Not an error:
    /// the wait goes on.
    Lagged,
    /// The relay shut down.
    Closed,
}

/// What the waiting phase does with one relay message.
pub enum WaitStep {
    /// Respond with this snapshot: it is newer than `since_ms`.
    Deliver(MetricsSnapshot),
    /// Keep waiting (within the same wait budget).
    KeepWaiting,
    /// End the wait and respond "no data".
    NoData,
}

/// The waiting phase of `next_after`: a forwarded snapshot newer than
/// `since_ms` is delivered; an older one, or a lag signal, keeps the wait
/// going; a closed relay ends it with "no data". (The wait's own timeout
/// expiring likewise ends it with "no data".)
pub fn next_after_step(event: RelayEvent, since_ms: u64) -> (r: WaitStep)
    ensures
        (event matches RelayEvent::Received(s) ==> {
            &&& s@.timestamp_ms > since_ms ==> (r matches WaitStep::Deliver(d) && d@ == s@)
            &&& s@.timestamp_ms <= since_ms ==> r is KeepWaiting
        }),
        event is Lagged ==> r is KeepWaiting,
        event is Closed ==> r is NoData,
{
    match event {
        RelayEvent::Received(s) => {
            if s.timestamp_ms > since_ms as u128 {
                WaitStep::Deliver(s)
            } else {
                WaitStep::KeepWaiting
            }
        },
        RelayEvent::Lagged => WaitStep::KeepWaiting,
        RelayEvent::Closed => WaitStep::NoData,
    }
}

/// The streamer's resume cursor after republishing a snapshot whose
/// timestamp is `ts`: the timestamp, clamped into `u64` so the cursor keeps
/// moving forward even on a strange remote clock.
pub open spec fn cursor_after(ts: u128) -> u64 {
    if ts > u64::MAX {
        u64::MAX
    } else {
        ts as u64
    }
}

/// The long-poll streamer's connection state and resume cursor:
/// `Disconnected -> Connected -> (on error) Disconnected`, with the cursor
/// advancing on every received snapshot.
pub struct StreamerState {
    pub connected: bool,
    pub since_ms: u64,
}

/// What the streamer's loop observed in one iteration.
pub enum StreamerEvent {
    /// A fresh connection was established.
    ConnectSucceeded,
    /// The connect attempt failed.
    ConnectFailed,
    /// The long-poll call returned a snapshot.
    PollSnapshot(MetricsSnapshot),
    /// The long-poll call timed out with no data: expected steady-state
    /// behavior, not an error.
    PollNoData,
    /// The long-poll call failed (transport error).
    PollFailed,
}

/// What the streamer's loop does next.
pub enum StreamerAction {
    /// Go straight on with the next iteration.
    Proceed,
    /// Sleep the fixed backoff, then go on with the next iteration.
    Backoff,
    /// Republish this snapshot into the local bus, then go on.
    Publish(MetricsSnapshot),
}

impl StreamerState {
    pub fn new() -> (r: Self)
        ensures
            !r.connected,
            r.since_ms == 0,
    {
        StreamerState { connected: false, since_ms: 0 }
    }

    /// One iteration of the streamer's loop: a failed connect backs off
    /// before retrying; a received snapshot advances the cursor and is
    /// republished locally; "no data" simply loops again; a hard call
    /// error discards the connection and backs off before reconnecting.
    pub fn step(&mut self, event: StreamerEvent) -> (r: StreamerAction)
        ensures
            event is ConnectSucceeded ==> final(self).connected && final(self).since_ms == old(
                self,
            ).since_ms && r is Proceed,
            event is ConnectFailed ==> !final(self).connected && final(self).since_ms == old(
                self,
            ).since_ms && r is Backoff,
            (event matches StreamerEvent::PollSnapshot(s) ==> {
                &&& final(self).connected == old(self).connected
                &&& final(self).since_ms == cursor_after(s@.timestamp_ms)
                &&& (r matches StreamerAction::Publish(p) && p@ == s@)
            }),
            event is PollNoData ==> *final(self) == *old(self) && r is Proceed,
            event is PollFailed ==> !final(self).connected && final(self).since_ms == old(
                self,
            ).since_ms && r is Backoff,
    {
        match event {
            StreamerEvent::ConnectSucceeded => {
                self.connected = true;
                StreamerAction::Proceed
            },
            StreamerEvent::ConnectFailed => {
                self.connected = false;
                StreamerAction::Backoff
            },
            StreamerEvent::PollSnapshot(s) => {
                self.since_ms = if s.timestamp_ms > u64::MAX as u128 {
                    u64::MAX
                } else {
                    s.timestamp_ms as u64
                };
                StreamerAction::Publish(s)
            },
            StreamerEvent::PollNoData => StreamerAction::Proceed,
            StreamerEvent::PollFailed => {
                self.connected = false;
                StreamerAction::Backoff
            },
        }
    }
}

/// The periodic poller's connection state: it reconnects lazily on the
/// next tick after any error and never retries within a tick.
pub struct PollerState {
    pub connected: bool,
}

/// What the poller's loop observed in one tick.
pub enum PollerEvent {
    /// A fresh connection was established.
    ConnectSucceeded,
    /// The connect attempt failed; try again on the next tick.
    ConnectFailed,
    /// The `latest` call returned a snapshot.
    LatestSnapshot(MetricsSnapshot),
    /// The `latest` call succeeded but the remote buffer is still empty.
    LatestEmpty,
    /// The `latest` call failed (transport error).
    CallFailed,
}

/// What the poller's loop does with one tick's observation.
pub enum PollerAction {
    /// Hand this snapshot to the local consumer.
    Deliver(MetricsSnapshot),
    /// Nothing more this tick.
    Idle,
}

impl PollerState {
    pub fn new() -> (r: Self)
        ensures
            !r.connected,
    {
        PollerState { connected: false }
    }

    /// One observation of the poller's tick: a snapshot is delivered; an
    /// empty read is skipped; a failed call discards the connection so the
    /// next tick reconnects.
    pub fn step(&mut self, event: PollerEvent) -> (r: PollerAction)
        ensures
            event is ConnectSucceeded ==> final(self).connected && r is Idle,
            event is ConnectFailed ==> !final(self).connected && r is Idle,
            (event matches PollerEvent::LatestSnapshot(s) ==> {
                &&& final(self).connected == old(self).connected
                &&& (r matches PollerAction::Deliver(d) && d@ == s@)
            }),
            event is LatestEmpty ==> *final(self) == *old(self) && r is Idle,
            event is CallFailed ==> !final(self).connected && r is Idle,
    {
        match event {
            PollerEvent::ConnectSucceeded => {
                self.connected = true;
                PollerAction::Idle
            },
            PollerEvent::ConnectFailed => {
                self.connected = false;
                PollerAction::Idle
            },
            PollerEvent::LatestSnapshot(s) => PollerAction::Deliver(s),
            PollerEvent::LatestEmpty => PollerAction::Idle,
            PollerEvent::CallFailed => {
                self.connected = false;
                PollerAction::Idle
            },
        }
    }
}

} // verus!
