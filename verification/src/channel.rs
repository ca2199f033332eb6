//! Per-venue channels and the keyed-registry model shared by the
//! builders.
//!
//! A venue's channel owns a bounded sender/receiver pair; one sender is
//! shared (by cloning) across every producer task that emits for that
//! venue, so multiple event kinds converge onto one logical output.

use vstd::prelude::*;
use crate::model::ExchangeId;

verus! {

/// Default backpressure bound of a per-venue channel.
pub const DEFAULT_CHANNEL_CAPACITY: usize = 64;

/// Largest backpressure bound a channel can be created with: tokio's
/// semaphore panics above its permit limit (an eighth of the address
/// space), and this bound stays below that limit on every platform.
pub const MAX_CHANNEL_CAPACITY: usize = 0x1FFFFFFF;

#[verifier::external_type_specification]
#[verifier::external_body]
#[verifier::reject_recursive_types(T)]
pub struct ExSender<T>(tokio::sync::mpsc::Sender<T>);

#[verifier::external_type_specification]
#[verifier::external_body]
#[verifier::reject_recursive_types(T)]
pub struct ExReceiver<T>(tokio::sync::mpsc::Receiver<T>);

/// Relies on tokio's `mpsc::channel`: a connected bounded
/// sender/receiver pair with the given capacity. tokio panics on a zero
/// capacity and above its semaphore's permit limit, so those inputs are
/// excluded.
#[verifier::external_body]
fn new_bounded_pair<T>(capacity: usize) -> (tokio::sync::mpsc::Sender<T>, tokio::sync::mpsc::Receiver<T>)
    requires
        1 <= capacity <= MAX_CHANNEL_CAPACITY,
{
    tokio::sync::mpsc::channel(capacity)
}

/// Relies on tokio's `Sender::clone`: another handle sending into the
/// same channel. The type is opaque, so sender values have no spec-level
/// observer besides equality; the clone is therefore modeled as equal to
/// the original, which says exactly that it feeds the same channel.
#[verifier::external_body]
pub(crate) fn clone_sender<T>(tx: &tokio::sync::mpsc::Sender<T>) -> (r: tokio::sync::mpsc::Sender<
    T,
>)
    ensures
        r == *tx,
{
    tx.clone()
}

/// One venue's channel: the sender half is shared by every producer for
/// the venue, the receiver half goes to the consumer. The backpressure
/// bound it was created with is kept as a ghost so contracts can speak
/// of it.
#[verifier::reject_recursive_types(T)]
pub struct ExchangeChannel<T> {
    pub tx: tokio::sync::mpsc::Sender<T>,
    pub rx: tokio::sync::mpsc::Receiver<T>,
    pub capacity: Ghost<usize>,
}

impl<T> ExchangeChannel<T> {
    /// New channel with the given backpressure bound.
    pub fn with_capacity(capacity: usize) -> (r: ExchangeChannel<T>)
        requires
            1 <= capacity <= MAX_CHANNEL_CAPACITY,
        ensures
            r.capacity@ == capacity,
    {
        let (tx, rx) = new_bounded_pair(capacity);
        ExchangeChannel { tx, rx, capacity: Ghost(capacity) }
    }

    /// New channel with the default backpressure bound.
    pub fn new() -> (r: ExchangeChannel<T>)
        ensures
            r.capacity@ == DEFAULT_CHANNEL_CAPACITY,
    {
        Self::with_capacity(DEFAULT_CHANNEL_CAPACITY)
    }

    /// Another sender handle into this venue's channel.
    pub fn clone_tx(&self) -> (r: tokio::sync::mpsc::Sender<T>)
        ensures
            r == self.tx,
    {
        clone_sender(&self.tx)
    }
}

/// Venue keys of a keyed registry are pairwise distinct.
pub open spec fn venue_keys_unique<T>(s: Seq<(ExchangeId, T)>) -> bool {
    forall|i: int, j: int|
        0 <= i < j < s.len() ==> (#[trigger] s[i]).0 != (#[trigger] s[j]).0
}

/// Some entry of the registry is keyed by `v`.
pub open spec fn has_venue_key<T>(s: Seq<(ExchangeId, T)>, v: ExchangeId) -> bool {
    exists|i: int| 0 <= i < s.len() && (#[trigger] s[i]).0 == v
}

/// How many entries of the registry are keyed by `v`.
pub open spec fn count_venue_key<T>(s: Seq<(ExchangeId, T)>, v: ExchangeId) -> int
    decreases s.len(),
{
    if s.len() == 0 {
        0
    } else {
        (if s.last().0 == v {
            1int
        } else {
            0int
        }) + count_venue_key(s.drop_last(), v)
    }
}

/// In a registry with unique keys, a venue that is present is present
/// exactly once.
pub proof fn lemma_unique_venue_count<T>(s: Seq<(ExchangeId, T)>, v: ExchangeId)
    requires
        venue_keys_unique(s),
    ensures
        has_venue_key(s, v) ==> count_venue_key(s, v) == 1,
        !has_venue_key(s, v) ==> count_venue_key(s, v) == 0,
    decreases s.len(),
{
    if s.len() > 0 {
        let prefix = s.drop_last();
        assert(venue_keys_unique(prefix)) by {
            assert forall|i: int, j: int| 0 <= i < j < prefix.len() implies (#[trigger] prefix[i]).0
                != (#[trigger] prefix[j]).0 by {
                assert(prefix[i] == s[i]);
                assert(prefix[j] == s[j]);
            }
        }
        lemma_unique_venue_count(prefix, v);
        if s.last().0 == v {
            assert(!has_venue_key(prefix, v)) by {
                if has_venue_key(prefix, v) {
                    let i = choose|i: int| 0 <= i < prefix.len() && (#[trigger] prefix[i]).0 == v;
                    assert(s[i] == prefix[i]);
                    assert(s[s.len() - 1].0 == v);
                }
            }
            assert(has_venue_key(s, v)) by {
                assert(s[s.len() - 1].0 == v);
            }
        } else {
            if has_venue_key(s, v) {
                let i = choose|i: int| 0 <= i < s.len() && (#[trigger] s[i]).0 == v;
                assert(i < s.len() - 1);
                assert(prefix[i] == s[i]);
                assert(has_venue_key(prefix, v));
            }
            if has_venue_key(prefix, v) {
                let i = choose|i: int| 0 <= i < prefix.len() && (#[trigger] prefix[i]).0 == v;
                assert(s[i] == prefix[i]);
                assert(has_venue_key(s, v));
            }
        }
    }
}

/// Appending an entry with a fresh key keeps keys unique.
pub proof fn lemma_push_venue_key_unique<T>(s: Seq<(ExchangeId, T)>, entry: (ExchangeId, T))
    requires
        venue_keys_unique(s),
        !has_venue_key(s, entry.0),
    ensures
        venue_keys_unique(s.push(entry)),
{
    let p = s.push(entry);
    assert forall|i: int, j: int| 0 <= i < j < p.len() implies (#[trigger] p[i]).0
        != (#[trigger] p[j]).0 by {
        if j < p.len() - 1 {
            assert(p[i] == s[i]);
            assert(p[j] == s[j]);
        } else {
            assert(p[i] == s[i]);
            assert(has_venue_key(s, s[i].0));
        }
    }
}

/// Appending an entry grows the key set by exactly that entry's key.
pub proof fn lemma_push_venue_key_at<T>(s: Seq<(ExchangeId, T)>, entry: (ExchangeId, T), v: ExchangeId)
    ensures
        has_venue_key(s.push(entry), v) <==> has_venue_key(s, v) || v == entry.0,
{
    let p = s.push(entry);
    if has_venue_key(p, v) {
        let i = choose|i: int| 0 <= i < p.len() && (#[trigger] p[i]).0 == v;
        if i < s.len() {
            assert(s[i] == p[i]);
            assert(has_venue_key(s, v));
        } else {
            assert(p[i] == entry);
        }
    }
    if has_venue_key(s, v) {
        let i = choose|i: int| 0 <= i < s.len() && (#[trigger] s[i]).0 == v;
        assert(p[i] == s[i]);
        assert(has_venue_key(p, v));
    }
    if v == entry.0 {
        assert(p[p.len() - 1].0 == v);
        assert(has_venue_key(p, v));
    }
}

/// The keys of a prefix grow one entry at a time.
pub proof fn lemma_take_venue_key<T>(s: Seq<(ExchangeId, T)>, k: int, v: ExchangeId)
    requires
        0 <= k < s.len(),
    ensures
        has_venue_key(s.take(k + 1), v) <==> has_venue_key(s.take(k), v) || v == s[k].0,
{
    let a = s.take(k);
    let b = s.take(k + 1);
    if has_venue_key(b, v) {
        let i = choose|i: int| 0 <= i < b.len() && (#[trigger] b[i]).0 == v;
        if i < k {
            assert(a[i] == b[i]);
            assert(has_venue_key(a, v));
        } else {
            assert(b[i] == s[k]);
        }
    }
    if has_venue_key(a, v) {
        let i = choose|i: int| 0 <= i < a.len() && (#[trigger] a[i]).0 == v;
        assert(b[i] == a[i]);
        assert(has_venue_key(b, v));
    }
    if v == s[k].0 {
        assert(b[k] == s[k]);
        assert(has_venue_key(b, v));
    }
}

} // verus!
