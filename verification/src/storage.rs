//! The bounded, insertion-ordered history buffer: the most recent snapshots,
//! oldest first, with eviction of exactly the oldest entry once the capacity
//! is reached.

use std::collections::VecDeque;
use vstd::prelude::*;

use crate::metrics::{MetricsSnapshot, SnapshotView};

verus! {

/// What one append does to the buffer's contents: when the buffer already
/// holds `cap` or more entries (and is non-empty), the oldest entry leaves
/// and the new one is appended; otherwise the new entry is appended alone.
pub open spec fn push_model(s: Seq<SnapshotView>, cap: nat, x: SnapshotView) -> Seq<SnapshotView> {
    if s.len() >= cap && s.len() > 0 {
        s.drop_first().push(x)
    } else {
        s.push(x)
    }
}

/// The `n` newest entries of `s` (all of `s` when it has fewer), oldest
/// first.
pub open spec fn lastn(s: Seq<SnapshotView>, n: nat) -> Seq<SnapshotView> {
    if n >= s.len() {
        s
    } else {
        s.subrange(s.len() - n, s.len() as int)
    }
}

/// A capacity-bounded sequence of snapshots, insertion-ordered, oldest
/// first. It is mutated only through `push`; it never shrinks except by
/// eviction.
pub struct MetricsBuffer {
    capacity: usize,
    inner: VecDeque<MetricsSnapshot>,
}

impl View for MetricsBuffer {
    type V = Seq<SnapshotView>;

    closed spec fn view(&self) -> Seq<SnapshotView> {
        self.inner.deep_view()
    }
}

impl MetricsBuffer {
    /// The fixed capacity the buffer was created with.
    pub closed spec fn spec_capacity(&self) -> nat {
        self.capacity as nat
    }

    /// The most recent entry, when there is one.
    pub open spec fn latest_spec(&self) -> Option<SnapshotView> {
        if self@.len() == 0 {
            None
        } else {
            Some(self@.last())
        }
    }

    /// The entries `history` returns for a given limit: the `limit` newest
    /// (everything, with no limit), oldest first.
    pub open spec fn history_spec(&self, limit: Option<usize>) -> Seq<SnapshotView> {
        match limit {
            Some(l) => lastn(self@, l as nat),
            None => self@,
        }
    }

    pub fn new(capacity: usize) -> (r: Self)
        ensures
            r@ == Seq::<SnapshotView>::empty(),
            r.spec_capacity() == capacity,
    {
        MetricsBuffer { capacity, inner: VecDeque::with_capacity(capacity) }
    }

    /// Appends one snapshot, evicting exactly the oldest entry when the
    /// buffer is full.
    pub fn push(&mut self, snapshot: MetricsSnapshot)
        ensures
            final(self)@ == push_model(old(self)@, old(self).spec_capacity(), snapshot@),
            final(self).spec_capacity() == old(self).spec_capacity(),
    {
        if self.inner.len() >= self.capacity && self.inner.len() > 0 {
            let _evicted = self.inner.pop_front();
            proof {
                assert(self.inner.deep_view() =~= old(self).inner.deep_view().drop_first());
            }
        }
        self.inner.push_back(snapshot);
        proof {
            assert(self.inner.deep_view() =~= push_model(
                old(self).inner.deep_view(),
                old(self).spec_capacity(),
                snapshot@,
            ));
        }
    }

    /// The most recently pushed snapshot, or nothing while the buffer is
    /// empty.
    pub fn latest(&self) -> (r: Option<MetricsSnapshot>)
        ensures
            r.deep_view() == self.latest_spec(),
    {
        let len = self.inner.len();
        if len == 0 {
            None
        } else {
            Some(self.inner[len - 1].clone())
        }
    }

    /// Up to `limit` of the most recent snapshots, oldest first; with no
    /// limit, the entire retained window.
    pub fn history(&self, limit: Option<usize>) -> (r: Vec<MetricsSnapshot>)
        ensures
            r.deep_view() == self.history_spec(limit),
    {
        let len = self.inner.len();
        let take = match limit {
            Some(l) => if l < len {
                l
            } else {
                len
            },
            None => len,
        };
        let start = len - take;
        let mut out: Vec<MetricsSnapshot> = Vec::new();
        let mut i: usize = start;
        while i < len
            invariant
                start <= i <= len,
                len == self.inner@.len(),
                take <= len,
                start == len - take,
                out.deep_view() == self@.subrange(start as int, i as int),
            decreases len - i,
        {
            let snap = self.inner[i].clone();
            proof {
                assert(snap.deep_view() == self@[i as int]);
                assert(out.deep_view().len() == i - start);
            }
            out.push(snap);
            proof {
                assert(out.deep_view().len() == i - start + 1);
                assert(out.deep_view() =~= self@.subrange(start as int, i as int + 1));
            }
            i = i + 1;
        }
        proof {
            assert(self@.subrange(start as int, len as int) =~= self.history_spec(limit));
        }
        out
    }
}

/// Whether a snapshot's timestamp lies in the inclusive window
/// `[since_ms, until_ms]`; an absent bound does not constrain.
pub open spec fn in_window(s: SnapshotView, since_ms: Option<u64>, until_ms: Option<u64>) -> bool {
    &&& (match since_ms {
        Some(t) => s.timestamp_ms >= t as u128,
        None => true,
    })
    &&& (match until_ms {
        Some(t) => s.timestamp_ms <= t as u128,
        None => true,
    })
}

/// The window predicate as a function value, for `Seq::filter`.
pub open spec fn window_pred(since_ms: Option<u64>, until_ms: Option<u64>) -> spec_fn(
    SnapshotView,
) -> bool {
    |s: SnapshotView| in_window(s, since_ms, until_ms)
}

/// What a history read returns: the entries inside the window, in stored
/// order, truncated to the `limit` newest. Filtering comes first, so the
/// truncation always keeps the newest matching entries.
pub open spec fn window_spec(
    entries: Seq<SnapshotView>,
    since_ms: Option<u64>,
    until_ms: Option<u64>,
    limit: Option<usize>,
) -> Seq<SnapshotView> {
    let filtered = entries.filter(window_pred(since_ms, until_ms));
    match limit {
        Some(l) => lastn(filtered, l as nat),
        None => filtered,
    }
}

/// Filters `entries` to the snapshots inside the inclusive
/// `[since_ms, until_ms]` window, then truncates to the `limit` newest of
/// them, keeping stored order.
pub fn filter_window(
    entries: Vec<MetricsSnapshot>,
    since_ms: Option<u64>,
    until_ms: Option<u64>,
    limit: Option<usize>,
) -> (r: Vec<MetricsSnapshot>)
    ensures
        r.deep_view() == window_spec(entries.deep_view(), since_ms, until_ms, limit),
{
    let ghost pred = window_pred(since_ms, until_ms);
    let n = entries.len();
    let mut kept: Vec<MetricsSnapshot> = Vec::new();
    let mut i: usize = 0;
    while i < n
        invariant
            i <= n,
            n == entries@.len(),
            kept.deep_view() == entries.deep_view().subrange(0, i as int).filter(pred),
            pred == window_pred(since_ms, until_ms),
        decreases n - i,
    {
        let ghost prefix = entries.deep_view().subrange(0, i as int);
        let s = &entries[i];
        proof {
            assert(entries.deep_view().subrange(0, i as int + 1).drop_last() =~= prefix);
            assert(entries.deep_view().subrange(0, i as int + 1) =~= prefix.push(s.deep_view()));
            prefix.lemma_filter_push(s.deep_view(), pred);
        }
        let keep = (match since_ms {
            Some(t) => s.timestamp_ms >= t as u128,
            None => true,
        }) && (match until_ms {
            Some(t) => s.timestamp_ms <= t as u128,
            None => true,
        });
        if keep {
            let c = s.clone();
            proof {
                assert(c.deep_view() == s.deep_view());
            }
            kept.push(c);
            proof {
                assert(kept.deep_view() =~= prefix.filter(pred).push(s.deep_view()));
            }
        }
        i = i + 1;
    }
    proof {
        assert(entries.deep_view().subrange(0, n as int) =~= entries.deep_view());
    }
    let len = kept.len();
    let take = match limit {
        Some(l) => if l < len {
            l
        } else {
            len
        },
        None => len,
    };
    let start = len - take;
    let mut out: Vec<MetricsSnapshot> = Vec::new();
    let mut j: usize = start;
    while j < len
        invariant
            start <= j <= len,
            len == kept@.len(),
            start == len - take,
            take <= len,
            out.deep_view() == kept.deep_view().subrange(start as int, j as int),
        decreases len - j,
    {
        let snap = kept[j].clone();
        proof {
            assert(snap.deep_view() == kept.deep_view()[j as int]);
            assert(out.deep_view().len() == j - start);
        }
        out.push(snap);
        proof {
            assert(out.deep_view() =~= kept.deep_view().subrange(start as int, j as int + 1));
        }
        j = j + 1;
    }
    proof {
        assert(out.deep_view() =~= window_spec(entries.deep_view(), since_ms, until_ms, limit));
    }
    out
}

/// The result of pushing each element of `xs` in turn, starting from the
/// contents `init`, into a buffer of capacity `cap`.
pub open spec fn fold_pushes(init: Seq<SnapshotView>, xs: Seq<SnapshotView>, cap: nat) -> Seq<
    SnapshotView,
>
    decreases xs.len(),
{
    if xs.len() == 0 {
        init
    } else {
        fold_pushes(push_model(init, cap, xs.first()), xs.drop_first(), cap)
    }
}

proof fn lemma_fold_pushes_general(init: Seq<SnapshotView>, xs: Seq<SnapshotView>, cap: nat)
    requires
        cap >= 1,
        init.len() <= cap,
    ensures
        fold_pushes(init, xs, cap) == lastn(init + xs, cap),
    decreases xs.len(),
{
    if xs.len() == 0 {
        assert(init + xs =~= init);
    } else {
        let x = xs.first();
        let rest = xs.drop_first();
        let next = push_model(init, cap, x);
        if init.len() < cap {
            assert(next == init.push(x));
            lemma_fold_pushes_general(next, rest, cap);
            assert(next + rest =~= init + xs);
        } else {
            assert(init.len() == cap);
            assert(next == init.drop_first().push(x));
            lemma_fold_pushes_general(next, rest, cap);
            let whole = init + xs;
            assert(next + rest =~= whole.drop_first());
            assert(whole.len() >= cap + 1);
            assert(lastn(whole.drop_first(), cap) =~= lastn(whole, cap));
        }
    }
}

/// Bounded history: pushing `xs.len() >= cap` snapshots into an initially
/// empty buffer of capacity `cap >= 1` leaves exactly the `cap` most
/// recently pushed snapshots, oldest first.
pub proof fn lemma_bounded_history(xs: Seq<SnapshotView>, cap: nat)
    requires
        cap >= 1,
        xs.len() >= cap,
    ensures
        fold_pushes(Seq::empty(), xs, cap) == xs.subrange(xs.len() - cap, xs.len() as int),
{
    lemma_fold_pushes_general(Seq::empty(), xs, cap);
    assert(Seq::<SnapshotView>::empty() + xs =~= xs);
}

/// Bounded memory: for a positive capacity, an append never grows the
/// contents past the capacity, so the invariant `length <= capacity` holds
/// at all times.
pub proof fn lemma_push_bounded(s: Seq<SnapshotView>, cap: nat, x: SnapshotView)
    requires
        cap >= 1,
        s.len() <= cap,
    ensures
        push_model(s, cap, x).len() <= cap,
{
}

/// Idempotent reads: two `latest` calls on the same buffer, with no push in
/// between, observe the same value.
pub proof fn lemma_idempotent_latest(
    b: &MetricsBuffer,
    r1: Option<MetricsSnapshot>,
    r2: Option<MetricsSnapshot>,
)
    requires
        call_ensures(MetricsBuffer::latest, (b,), r1),
        call_ensures(MetricsBuffer::latest, (b,), r2),
    ensures
        r1.deep_view() == r2.deep_view(),
{
}

/// Idempotent reads: two `history` calls with the same limit on the same
/// buffer, with no push in between, observe the same sequence.
pub proof fn lemma_idempotent_history(
    b: &MetricsBuffer,
    limit: Option<usize>,
    r1: Vec<MetricsSnapshot>,
    r2: Vec<MetricsSnapshot>,
)
    requires
        call_ensures(MetricsBuffer::history, (b, limit), r1),
        call_ensures(MetricsBuffer::history, (b, limit), r2),
    ensures
        r1.deep_view() == r2.deep_view(),
{
}

} // verus!

