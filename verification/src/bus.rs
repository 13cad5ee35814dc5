//! The in-process publish/subscribe dispatch: an explicit dispatcher,
//! constructed once at start-up, that fans each published snapshot out to
//! its subscribers in registration order — the history writer first, then
//! the optional broadcast relay. Neither subscriber can block or fail the
//! producer: a failed relay send (no active consumer) is swallowed, and the
//! history buffer stays the source of truth.

use tokio::sync::broadcast::Sender;
use vstd::prelude::*;

use crate::metrics::{MetricsSnapshot, SnapshotView};
use crate::storage::{push_model, MetricsBuffer};

verus! {

/// The event the bus dispatches: one freshly published snapshot.
pub struct MetricsEvent(pub MetricsSnapshot);

/// tokio's broadcast sender: the multi-consumer distribution primitive
/// behind the stream relay. Opaque to the library; values of it are only
/// carried and handed to `relay_send`.
#[verifier::external_type_specification]
#[verifier::external_body]
#[verifier::reject_recursive_types(T)]
pub struct ExSender<T>(Sender<T>);

/// Relies on tokio's `broadcast::Sender::send`: it queues the value for
/// every currently subscribed receiver and reports success, and fails
/// (handing the value back) only when no receiver exists. Whether any
/// receiver is subscribed is runtime state, so nothing is promised of the
/// result.
#[verifier::external_body]
fn relay_send(tx: &Sender<MetricsSnapshot>, snapshot: MetricsSnapshot) -> bool {
    tx.send(snapshot).is_ok()
}

/// The dispatcher. It owns the history buffer (its first subscriber) and,
/// when registered with one, the broadcast relay's sender (its second).
pub struct MetricsBus {
    buffer: MetricsBuffer,
    stream_tx: Option<Sender<MetricsSnapshot>>,
}

impl View for MetricsBus {
    type V = Seq<SnapshotView>;

    closed spec fn view(&self) -> Seq<SnapshotView> {
        self.buffer@
    }
}

impl MetricsBus {
    /// The capacity of the owned history buffer.
    pub closed spec fn spec_capacity(&self) -> nat {
        self.buffer.spec_capacity()
    }

    /// Whether a stream relay subscriber is registered.
    pub closed spec fn has_stream(&self) -> bool {
        self.stream_tx is Some
    }

    /// Read access to the history buffer, the source of truth for `latest`
    /// and `history` reads.
    pub fn buffer(&self) -> (r: &MetricsBuffer)
        ensures
            r@ == self@,
            r.spec_capacity() == self.spec_capacity(),
    {
        &self.buffer
    }
}

/// Registers the storage subscriber alone: a bus that appends every
/// published snapshot to `buffer` and forwards to no relay.
pub fn register_storage_subscriber(buffer: MetricsBuffer) -> (r: MetricsBus)
    ensures
        r@ == buffer@,
        r.spec_capacity() == buffer.spec_capacity(),
        !r.has_stream(),
{
    MetricsBus { buffer, stream_tx: None }
}

/// Registers the storage subscriber and, after it, the stream relay
/// subscriber: a bus that appends every published snapshot to `buffer` and
/// then forwards a copy through `stream_tx`.
pub fn register_storage_and_stream_subscriber(
    buffer: MetricsBuffer,
    stream_tx: Sender<MetricsSnapshot>,
) -> (r: MetricsBus)
    ensures
        r@ == buffer@,
        r.spec_capacity() == buffer.spec_capacity(),
        r.has_stream(),
{
    MetricsBus { buffer, stream_tx: Some(stream_tx) }
}

/// Publishes one snapshot: a synchronous fan-out to the registered
/// subscribers, in registration order. The history buffer observes exactly
/// this one append; the relay, when registered, is handed a copy, and its
/// failure (no active consumer, or consumers lagging) is not surfaced — the
/// producer can neither block nor fail here.
pub fn publish_snapshot(bus: &mut MetricsBus, snapshot: MetricsSnapshot)
    ensures
        final(bus)@ == push_model(old(bus)@, old(bus).spec_capacity(), snapshot@),
        final(bus).spec_capacity() == old(bus).spec_capacity(),
        final(bus).has_stream() == old(bus).has_stream(),
{
    let event = MetricsEvent(snapshot);
    bus.buffer.push(event.0.clone());
    match &bus.stream_tx {
        Some(tx) => {
            let _delivered = relay_send(tx, event.0);
        },
        None => {},
    }
}

/// End to end: one snapshot published on a bus whose buffer is still empty
/// leaves a history of exactly one entry, and that entry — the one `latest`
/// then returns — is the published snapshot.
pub proof fn lemma_end_to_end(entries: Seq<SnapshotView>, cap: nat, s: SnapshotView)
    requires
        entries.len() == 0,
    ensures
        push_model(entries, cap, s).len() == 1,
        push_model(entries, cap, s).last() == s,
{
}

} // verus!
