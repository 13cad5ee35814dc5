//! The gateway's read logic: the parameters of a history read and the
//! windowed query they select. The HTTP surface itself (routing, status
//! codes, the server-push stream) lives at the process edge; every byte of
//! data it serves is computed here or in the buffer.

use vstd::prelude::*;

use crate::metrics::MetricsSnapshot;
use crate::storage::{filter_window, window_spec, MetricsBuffer};

verus! {

/// The query parameters of a history read: an inclusive
/// `[since_ms, until_ms]` timestamp window and a cap on how many of the
/// newest matching entries to return. An absent parameter does not
/// constrain.
pub struct HistoryQuery {
    pub limit: Option<usize>,
    pub since_ms: Option<u64>,
    pub until_ms: Option<u64>,
}

/// The history read: the retained window filtered to the query's inclusive
/// timestamp window, then truncated to the `limit` newest matching entries,
/// oldest first — filtering first, so the truncation keeps the newest
/// matches.
pub fn history_window(buffer: &MetricsBuffer, query: &HistoryQuery) -> (r: Vec<MetricsSnapshot>)
    ensures
        r.deep_view() == window_spec(buffer@, query.since_ms, query.until_ms, query.limit),
{
    let all = buffer.history(None);
    filter_window(all, query.since_ms, query.until_ms, query.limit)
}

} // verus!
