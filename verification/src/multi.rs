//! Multi-stream composition engine.
//!
//! Composes any number of per-kind stream builders — possibly of
//! different event kinds — into one handle of a single unified output
//! type. Adding a builder is a pure step: it ensures one unified channel
//! per covered venue (creating it on first reference, reusing it after)
//! and queues a work order. Initialization is fail-fast: the first
//! failure of any queued unit fails the whole composition and no partial
//! handle is handed out.

use vstd::prelude::*;
use crate::builder::{StreamBuilder, Streams};
use crate::channel::{
    DEFAULT_CHANNEL_CAPACITY, ExchangeChannel, MAX_CHANNEL_CAPACITY, count_venue_key,
    has_venue_key,
    lemma_push_venue_key_at, lemma_push_venue_key_unique, lemma_take_venue_key,
    lemma_unique_venue_count, venue_keys_unique,
};
use crate::model::{DataError, ExchangeId};

verus! {

/// First failure among the initialization outcomes, or success if every
/// unit succeeded.
pub open spec fn spec_first_error(s: Seq<Result<(), DataError>>) -> Result<(), DataError>
    decreases s.len(),
{
    if s.len() == 0 {
        Ok(())
    } else {
        match s[0] {
            Err(e) => Err(e),
            Ok(_) => spec_first_error(s.skip(1)),
        }
    }
}

/// Builder composing per-kind stream builders into one handle of a
/// unified output type: one unified channel per venue, shared by every
/// contributing kind, and one queued initialization unit per added
/// builder.
#[verifier::reject_recursive_types(Output)]
pub struct MultiStreamBuilder<Output> {
    pub channels: Vec<(ExchangeId, ExchangeChannel<Output>)>,
    pub pending: usize,
    pub channel_capacity: usize,
}

/// Work order queued by one `add`: the caller drives the builder's own
/// initialization, and for each of the builder's venues runs one
/// forwarding task that maps events into that venue's unified sender.
#[verifier::reject_recursive_types(Output)]
#[verifier::reject_recursive_types(Event)]
pub struct ForwardPlan<Output, Event> {
    pub builder: StreamBuilder<Event>,
    pub venue_txs: Vec<(ExchangeId, tokio::sync::mpsc::Sender<Output>)>,
}

/// `tx` is a handle into the composition's own channel for `venue`:
/// some registry entry for that venue holds this very sender.
pub open spec fn sends_into<Output>(
    channels: Seq<(ExchangeId, ExchangeChannel<Output>)>,
    venue: ExchangeId,
    tx: tokio::sync::mpsc::Sender<Output>,
) -> bool {
    exists|j: int|
        0 <= j < channels.len() && (#[trigger] channels[j]).0 == venue && channels[j].1.tx == tx
}

proof fn lemma_sends_into_push<Output>(
    channels: Seq<(ExchangeId, ExchangeChannel<Output>)>,
    entry: (ExchangeId, ExchangeChannel<Output>),
    venue: ExchangeId,
    tx: tokio::sync::mpsc::Sender<Output>,
)
    requires
        sends_into(channels, venue, tx),
    ensures
        sends_into(channels.push(entry), venue, tx),
{
    let j = choose|j: int|
        0 <= j < channels.len() && (#[trigger] channels[j]).0 == venue && channels[j].1.tx == tx;
    assert(channels.push(entry)[j] == channels[j]);
}

impl<Output> MultiStreamBuilder<Output> {
    /// One unified channel per venue; a usable backpressure bound.
    pub open spec fn wf(&self) -> bool {
        venue_keys_unique(self.channels@) && 1 <= self.channel_capacity
            <= MAX_CHANNEL_CAPACITY
    }

    /// A unified channel exists for `v`.
    pub open spec fn has_venue(&self, v: ExchangeId) -> bool {
        has_venue_key(self.channels@, v)
    }

    pub fn new() -> (r: Self)
        ensures
            r.wf(),
            r.channels@.len() == 0,
            r.pending == 0,
            r.channel_capacity == DEFAULT_CHANNEL_CAPACITY,
    {
        MultiStreamBuilder {
            channels: Vec::new(),
            pending: 0,
            channel_capacity: DEFAULT_CHANNEL_CAPACITY,
        }
    }

    /// Like `new`, with an explicit backpressure bound per unified
    /// channel.
    pub fn with_capacity(capacity: usize) -> (r: Self)
        requires
            1 <= capacity <= MAX_CHANNEL_CAPACITY,
        ensures
            r.wf(),
            r.channels@.len() == 0,
            r.pending == 0,
            r.channel_capacity == capacity,
    {
        MultiStreamBuilder { channels: Vec::new(), pending: 0, channel_capacity: capacity }
    }

    /// Add one per-kind builder to the composition. For every venue the
    /// builder covers, a unified channel is created on first reference
    /// and reused afterwards, so venues covered by several kinds share
    /// one channel. The returned work order carries the builder back to
    /// the caller with one unified sender per covered venue, in the
    /// builder's venue order; nothing runs yet.
    pub fn add<Event>(self, builder: StreamBuilder<Event>) -> (r: (
        Self,
        ForwardPlan<Output, Event>,
    ))
        requires
            self.wf(),
            builder.wf(),
            self.pending < usize::MAX,
        ensures
            r.0.wf(),
            forall|v: ExchangeId| r.0.has_venue(v) <==> self.has_venue(v) || builder.has_venue(v),
            r.0.pending == self.pending + 1,
            r.0.channel_capacity == self.channel_capacity,
            r.0.channels@.len() >= self.channels@.len(),
            r.0.channels@.subrange(0, self.channels@.len() as int) == self.channels@,
            forall|j: int|
                self.channels@.len() <= j < r.0.channels@.len() ==> builder.has_venue(
                    (#[trigger] r.0.channels@[j]).0,
                ) && !self.has_venue(r.0.channels@[j].0) && r.0.channels@[j].1.capacity@
                    == self.channel_capacity,
            r.1.builder == builder,
            r.1.venue_txs@.len() == builder.channels@.len(),
            forall|i: int|
                0 <= i < builder.channels@.len() ==> (#[trigger] r.1.venue_txs@[i]).0
                    == builder.channels@[i].0,
            forall|i: int|
                0 <= i < r.1.venue_txs@.len() ==> sends_into(
                    r.0.channels@,
                    (#[trigger] r.1.venue_txs@[i]).0,
                    r.1.venue_txs@[i].1,
                ),
    {
        let mut this = self;
        let mut venue_txs: Vec<(ExchangeId, tokio::sync::mpsc::Sender<Output>)> = Vec::new();
        let n = builder.channels.len();
        let mut k: usize = 0;
        proof {
            assert(builder.channels@.take(0) =~= Seq::empty());
            assert(this.channels@.subrange(0, self.channels@.len() as int) =~= self.channels@);
        }
        while k < n
            invariant
                0 <= k <= n,
                n == builder.channels@.len(),
                this.channel_capacity == self.channel_capacity,
                1 <= this.channel_capacity <= MAX_CHANNEL_CAPACITY,
                this.pending == self.pending,
                venue_keys_unique(this.channels@),
                forall|v: ExchangeId|
                    #![trigger has_venue_key(this.channels@, v)]
                    has_venue_key(this.channels@, v) <==> self.has_venue(v) || has_venue_key(
                        builder.channels@.take(k as int),
                        v,
                    ),
                venue_txs@.len() == k,
                forall|i: int|
                    0 <= i < k ==> (#[trigger] venue_txs@[i]).0 == builder.channels@[i].0,
                this.channels@.len() >= self.channels@.len(),
                this.channels@.subrange(0, self.channels@.len() as int) == self.channels@,
                forall|j: int|
                    self.channels@.len() <= j < this.channels@.len() ==> builder.has_venue(
                        (#[trigger] this.channels@[j]).0,
                    ) && !self.has_venue(this.channels@[j].0) && this.channels@[j].1.capacity@
                        == self.channel_capacity,
                forall|i: int|
                    0 <= i < k ==> sends_into(
                        this.channels@,
                        (#[trigger] venue_txs@[i]).0,
                        venue_txs@[i].1,
                    ),
            decreases n - k,
        {
            let venue = builder.channels[k].0;
            let cn = this.channels.len();
            let mut idx: usize = 0;
            let mut found: bool = false;
            while idx < cn && !found
                invariant
                    0 <= idx <= cn,
                    cn == this.channels@.len(),
                    !found ==> forall|i: int|
                        0 <= i < idx ==> (#[trigger] this.channels@[i]).0 != venue,
                    found ==> idx < cn && this.channels@[idx as int].0 == venue,
                decreases cn - idx + (if found { 0int } else { 1int }),
            {
                if this.channels[idx].0 == venue {
                    found = true;
                } else {
                    idx = idx + 1;
                }
            }
            let ghost before = this.channels@;
            if !found {
                proof {
                    if has_venue_key(this.channels@, venue) {
                        let i = choose|i: int|
                            0 <= i < this.channels@.len() && (#[trigger] this.channels@[i]).0
                                == venue;
                    }
                    assert(!has_venue_key(this.channels@, venue));
                }
                let ch = ExchangeChannel::with_capacity(this.channel_capacity);
                this.channels.push((venue, ch));
                proof {
                    lemma_push_venue_key_unique(before, this.channels@.last());
                    assert(this.channels@ =~= before.push(this.channels@.last()));
                }
                idx = cn;
            }
            let tx = this.channels[idx].1.clone_tx();
            let ghost txs_before = venue_txs@;
            venue_txs.push((venue, tx));
            proof {
                assert(builder.channels@[k as int].0 == venue);
                if found {
                    assert(has_venue_key(this.channels@, venue));
                }
                assert forall|v: ExchangeId|
                    #![trigger has_venue_key(this.channels@, v)]
                    has_venue_key(this.channels@, v) <==> (self.has_venue(v) || has_venue_key(
                        builder.channels@.take(k as int + 1),
                        v,
                    )) by {
                    lemma_take_venue_key(builder.channels@, k as int, v);
                    assert(has_venue_key(builder.channels@.take(k as int + 1), v)
                        <==> (has_venue_key(builder.channels@.take(k as int), v) || v == venue));
                    if !found {
                        lemma_push_venue_key_at(before, (venue, this.channels@.last().1), v);
                        assert(this.channels@ =~= before.push((venue, this.channels@.last().1)));
                        assert(has_venue_key(this.channels@, v) <==> (has_venue_key(before, v)
                            || v == venue));
                        assert(has_venue_key(before, v) <==> (self.has_venue(v) || has_venue_key(
                            builder.channels@.take(k as int),
                            v,
                        )));
                    } else {
                        assert(has_venue_key(this.channels@, v) <==> (self.has_venue(v)
                            || has_venue_key(builder.channels@.take(k as int), v)));
                        if v == venue {
                            assert(has_venue_key(this.channels@, v));
                        }
                    }
                }
                assert(this.channels@[idx as int].0 == venue);
                assert(sends_into(this.channels@, venue, tx));
                assert forall|i: int| 0 <= i < venue_txs@.len() implies sends_into(
                    this.channels@,
                    (#[trigger] venue_txs@[i]).0,
                    venue_txs@[i].1,
                ) by {
                    if i < txs_before.len() {
                        assert(venue_txs@[i] == txs_before[i]);
                        if !found {
                            lemma_sends_into_push(
                                before,
                                this.channels@.last(),
                                txs_before[i].0,
                                txs_before[i].1,
                            );
                            assert(this.channels@ == before.push(this.channels@.last()));
                        }
                    } else {
                        assert(venue_txs@[i] == (venue, tx));
                    }
                }
                if !found {
                    assert(this.channels@.subrange(0, self.channels@.len() as int)
                        =~= before.subrange(0, self.channels@.len() as int));
                    assert(!self.has_venue(venue)) by {
                        if self.has_venue(venue) {
                            assert(has_venue_key(before, venue));
                        }
                    }
                    assert(has_venue_key(builder.channels@, venue)) by {
                        assert(builder.channels@[k as int].0 == venue);
                    }
                    assert(this.channels@.last().1.capacity@ == self.channel_capacity);
                }
                assert forall|j: int|
                    self.channels@.len() <= j < this.channels@.len() implies builder.has_venue(
                        (#[trigger] this.channels@[j]).0,
                    ) && !self.has_venue(this.channels@[j].0) && this.channels@[j].1.capacity@
                        == self.channel_capacity by {
                    if j < before.len() {
                        assert(this.channels@[j] == before[j]);
                    } else {
                        assert(this.channels@[j] == this.channels@.last());
                    }
                }
            }
            k = k + 1;
        }
        proof {
            assert(builder.channels@.take(n as int) =~= builder.channels@);
        }
        this.pending = this.pending + 1;
        (this, ForwardPlan { builder, venue_txs })
    }

    /// Consume the composition, judging the outcomes of all queued
    /// initialization units: on the first failure, in queue order, return
    /// exactly that failure and no handle at all; only when every unit
    /// succeeded, return the handle over every venue's unified receiver.
    pub fn init(self, results: Vec<Result<(), DataError>>) -> (r: Result<
        Streams<Output>,
        DataError,
    >)
        requires
            self.wf(),
            results@.len() == self.pending,
        ensures
            r is Ok <==> spec_first_error(results@) is Ok,
            r matches Err(e) ==> Err::<(), DataError>(e) == spec_first_error(results@),
            r matches Ok(h) ==> h.wf() && h.streams@.len() == self.channels@.len()
                && (forall|i: int|
                0 <= i < self.channels@.len() ==> (#[trigger] h.streams@[i]).0
                    == self.channels@[i].0 && h.streams@[i].1 == self.channels@[i].1.rx),
    {
        if let Err(e) = first_error(&results) {
            return Err(e);
        }
        let MultiStreamBuilder { mut channels, pending: _, channel_capacity: _ } = self;
        let ghost all = channels@;
        let mut receivers: Vec<(ExchangeId, tokio::sync::mpsc::Receiver<Output>)> = Vec::new();
        while channels.len() > 0
            invariant
                receivers@.len() + channels@.len() == all.len(),
                channels@ =~= all.skip(receivers@.len() as int),
                forall|i: int|
                    0 <= i < receivers@.len() ==> (#[trigger] receivers@[i]).0 == all[i].0
                        && receivers@[i].1 == all[i].1.rx,
            decreases channels@.len(),
        {
            let (venue, ch) = channels.remove(0);
            proof {
                assert(all.skip(receivers@.len() as int)[0] == (venue, ch));
            }
            let ExchangeChannel { tx: _, rx, capacity: _ } = ch;
            receivers.push((venue, rx));
            proof {
                assert(channels@ =~= all.skip(receivers@.len() as int));
            }
        }
        let streams = Streams { streams: receivers };
        proof {
            assert(venue_keys_unique(all));
            assert forall|i: int, j: int| 0 <= i < j < streams.streams@.len() implies
                (#[trigger] streams.streams@[i]).0 != (#[trigger] streams.streams@[j]).0 by {
                assert(streams.streams@[i].0 == all[i].0);
                assert(streams.streams@[j].0 == all[j].0);
            }
        }
        Ok(streams)
    }
}

/// Fail-fast verdict over initialization outcomes, in order: the first
/// failure, or success when every unit succeeded. This is the whole
/// decision both `init` operations make of their units' outcomes.
pub fn first_error(results: &Vec<Result<(), DataError>>) -> (r: Result<(), DataError>)
    ensures
        r == spec_first_error(results@),
{
    let n = results.len();
    let mut i: usize = 0;
    proof {
        assert(results@.skip(0) =~= results@);
    }
    while i < n
        invariant
            0 <= i <= n,
            n == results@.len(),
            spec_first_error(results@) == spec_first_error(results@.skip(i as int)),
        decreases n - i,
    {
        let cur = vec_result_at(results, i);
        proof {
            assert(results@.skip(i as int)[0] == results@[i as int]);
            assert(results@.skip(i as int).skip(1) =~= results@.skip(i as int + 1));
        }
        match cur {
            Err(e) => {
                return Err(e);
            },
            Ok(_) => {},
        }
        i = i + 1;
    }
    proof {
        assert(results@.skip(n as int) =~= Seq::<Result<(), DataError>>::empty());
    }
    Ok(())
}

fn vec_result_at(results: &Vec<Result<(), DataError>>, i: usize) -> (r: Result<(), DataError>)
    requires
        i < results@.len(),
    ensures
        r == results@[i as int],
{
    match &results[i] {
        Ok(_) => {
            assert(results@[i as int] matches Ok(u) && u == ());
            Ok(())
        },
        Err(e) => Err(*e),
    }
}

impl<Output> Default for MultiStreamBuilder<Output> {
    fn default() -> (r: Self)
        ensures
            r.wf(),
            r.channels@.len() == 0,
            r.pending == 0,
    {
        MultiStreamBuilder::new()
    }
}

/// Exactly one forwarding task per (builder, venue) pair: a work order
/// whose senders mirror its builder's channel registry names each of the
/// builder's venues exactly once, so no two tasks drain one per-kind
/// receiver and no venue of the builder goes unforwarded.
pub proof fn lemma_one_forwarder_per_venue<Output, Event>(
    plan: ForwardPlan<Output, Event>,
    v: ExchangeId,
)
    requires
        plan.builder.wf(),
        plan.venue_txs@.len() == plan.builder.channels@.len(),
        forall|i: int|
            0 <= i < plan.builder.channels@.len() ==> (#[trigger] plan.venue_txs@[i]).0
                == plan.builder.channels@[i].0,
        plan.builder.has_venue(v),
    ensures
        count_venue_key(plan.venue_txs@, v) == 1,
{
    let txs = plan.venue_txs@;
    let chans = plan.builder.channels@;
    assert forall|i: int, j: int| 0 <= i < j < txs.len() implies (#[trigger] txs[i]).0
        != (#[trigger] txs[j]).0 by {
        assert(txs[i].0 == chans[i].0);
        assert(txs[j].0 == chans[j].0);
    }
    let i = choose|i: int| 0 <= i < chans.len() && (#[trigger] chans[i]).0 == v;
    assert(txs[i].0 == v);
    assert(has_venue_key(txs, v));
    lemma_unique_venue_count(txs, v);
}

/// A sender into one of a composition's channels keeps sending into it
/// through later `add`s, which preserve existing entries in place.
pub proof fn lemma_sends_into_preserved<Output>(
    older: Seq<(ExchangeId, ExchangeChannel<Output>)>,
    newer: Seq<(ExchangeId, ExchangeChannel<Output>)>,
    venue: ExchangeId,
    tx: tokio::sync::mpsc::Sender<Output>,
)
    requires
        older.len() <= newer.len(),
        newer.subrange(0, older.len() as int) == older,
        sends_into(older, venue, tx),
    ensures
        sends_into(newer, venue, tx),
{
    let j = choose|j: int|
        0 <= j < older.len() && (#[trigger] older[j]).0 == venue && older[j].1.tx == tx;
    assert(newer.subrange(0, older.len() as int)[j] == newer[j]);
    assert(newer[j] == older[j]);
}

/// Senders that feed one venue of a composition feed one and the same
/// unified channel: events of every contributing kind converge on it.
pub proof fn lemma_kinds_converge<Output>(
    m: MultiStreamBuilder<Output>,
    venue: ExchangeId,
    tx1: tokio::sync::mpsc::Sender<Output>,
    tx2: tokio::sync::mpsc::Sender<Output>,
)
    requires
        m.wf(),
        sends_into(m.channels@, venue, tx1),
        sends_into(m.channels@, venue, tx2),
    ensures
        tx1 == tx2,
{
    let s = m.channels@;
    let j1 = choose|j: int| 0 <= j < s.len() && (#[trigger] s[j]).0 == venue && s[j].1.tx == tx1;
    let j2 = choose|j: int| 0 <= j < s.len() && (#[trigger] s[j]).0 == venue && s[j].1.tx == tx2;
    if j1 != j2 {
        assert(s[j1].0 != s[j2].0);
    }
}

/// However many per-kind builders cover a venue, a composition holds
/// exactly one unified channel for it.
pub proof fn lemma_one_unified_channel_per_venue<Output>(
    m: MultiStreamBuilder<Output>,
    v: ExchangeId,
)
    requires
        m.wf(),
        m.has_venue(v),
    ensures
        count_venue_key(m.channels@, v) == 1,
{
    lemma_unique_venue_count(m.channels@, v);
}

} // verus!
