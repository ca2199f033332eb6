//! Per-kind stream builder and the consumer-facing streams handle.
//!
//! A builder aggregates (venue, instrument) subscription requests for one
//! canonical event kind without starting any work; consuming it yields an
//! initialization plan with exactly one producer task per registered
//! venue, plus the handle holding each venue's receiver. Establishing the
//! venue producers (transport, awaiting) is outside this core: a caller
//! runs the plan's tasks and reports their outcomes.

use vstd::prelude::*;
use crate::channel::{
    DEFAULT_CHANNEL_CAPACITY, ExchangeChannel, has_venue_key, venue_keys_unique,
};
use crate::model::{ExchangeId, Instrument, Market};

verus! {

/// Instruments subscribed for `venue`, in registration order.
pub open spec fn subs_of(s: Seq<(ExchangeId, Instrument)>, venue: ExchangeId) -> Seq<Instrument>
    decreases s.len(),
{
    if s.len() == 0 {
        Seq::empty()
    } else if s.last().0 == venue {
        subs_of(s.drop_last(), venue).push(s.last().1)
    } else {
        subs_of(s.drop_last(), venue)
    }
}

/// Builder state for one event kind: one channel per registered venue
/// and the pending subscription requests. Pure aggregation: nothing runs
/// until the builder is consumed.
#[verifier::reject_recursive_types(Event)]
pub struct StreamBuilder<Event> {
    pub channels: Vec<(ExchangeId, ExchangeChannel<Market<Event>>)>,
    pub subscriptions: Vec<(ExchangeId, Instrument)>,
}

impl<Event> StreamBuilder<Event> {
    /// Registered venues are pairwise distinct: one channel, and later
    /// one producer, per venue.
    pub open spec fn wf(&self) -> bool {
        venue_keys_unique(self.channels@)
    }

    /// A channel exists for `venue`.
    pub open spec fn has_venue(&self, venue: ExchangeId) -> bool {
        has_venue_key(self.channels@, venue)
    }

    pub fn new() -> (r: Self)
        ensures
            r.wf(),
            r.channels@.len() == 0,
            r.subscriptions@.len() == 0,
    {
        StreamBuilder { channels: Vec::new(), subscriptions: Vec::new() }
    }

    /// Register instruments for one venue without starting any work.
    /// Registering the same venue twice merges subscription sets rather
    /// than creating a second channel or producer.
    pub fn add(self, venue: ExchangeId, instruments: Vec<Instrument>) -> (r: Self)
        requires
            self.wf(),
        ensures
            r.wf(),
            forall|v: ExchangeId| r.has_venue(v) <==> self.has_venue(v) || v == venue,
            self.has_venue(venue) ==> r.channels@ == self.channels@,
            !self.has_venue(venue) ==> r.channels@.len() == self.channels@.len() + 1
                && r.channels@.subrange(0, self.channels@.len() as int) == self.channels@
                && r.channels@.last().0 == venue
                && r.channels@.last().1.capacity@ == DEFAULT_CHANNEL_CAPACITY,
            forall|v: ExchangeId|
                v != venue ==> subs_of(r.subscriptions@, v) == subs_of(self.subscriptions@, v),
            subs_of(r.subscriptions@, venue) == subs_of(self.subscriptions@, venue)
                + instruments@,
    {
        let mut this = self;
        let n = this.channels.len();
        let mut k: usize = 0;
        let mut found: bool = false;
        while k < n && !found
            invariant
                0 <= k <= n,
                n == this.channels@.len(),
                !found ==> forall|i: int| 0 <= i < k ==> (#[trigger] this.channels@[i]).0 != venue,
                found ==> this.has_venue(venue),
            decreases n - k + (if found { 0int } else { 1int }),
        {
            if this.channels[k].0 == venue {
                found = true;
            } else {
                k = k + 1;
            }
        }
        if !found {
            let ghost before = this.channels@;
            this.channels.push((venue, ExchangeChannel::new()));
            proof {
                assert forall|i: int, j: int| 0 <= i < j < this.channels@.len() implies
                    (#[trigger] this.channels@[i]).0 != (#[trigger] this.channels@[j]).0 by {
                    if j < this.channels@.len() - 1 {
                        assert(this.channels@[i] == before[i]);
                        assert(this.channels@[j] == before[j]);
                    } else {
                        assert(this.channels@[i] == before[i]);
                    }
                }
            }
        }
        let ghost chans = this.channels@;
        proof {
            if found {
                assert(chans == self.channels@);
                assert(self.has_venue(venue));
            } else {
                assert(!self.has_venue(venue)) by {
                    if self.has_venue(venue) {
                        let i = choose|i: int|
                            0 <= i < self.channels@.len() && (#[trigger] self.channels@[i]).0
                                == venue;
                    }
                }
                assert(chans.subrange(0, self.channels@.len() as int) =~= self.channels@);
                assert(chans.last().0 == venue);
                assert(chans.last().1.capacity@ == DEFAULT_CHANNEL_CAPACITY);
            }
            assert forall|v: ExchangeId| has_venue_key(chans, v) <==> (self.has_venue(v) || v
                == venue) by {
                let before = self.channels@;
                if found {
                    assert(chans == before);
                    if v == venue {
                        assert(has_venue_key(chans, v));
                    }
                } else {
                    if has_venue_key(chans, v) {
                        let i = choose|i: int|
                            0 <= i < chans.len() && (#[trigger] chans[i]).0 == v;
                        if i < before.len() {
                            assert(before[i] == chans[i]);
                            assert(has_venue_key(before, v));
                        }
                    }
                    if has_venue_key(before, v) {
                        let i = choose|i: int|
                            0 <= i < before.len() && (#[trigger] before[i]).0 == v;
                        assert(chans[i] == before[i]);
                        assert(has_venue_key(chans, v));
                    }
                    if v == venue {
                        assert(chans[chans.len() - 1].0 == v);
                        assert(has_venue_key(chans, v));
                    }
                }
            }
        }
        let m = instruments.len();
        let mut t: usize = 0;
        while t < m
            invariant
                0 <= t <= m,
                m == instruments@.len(),
                this.channels@ == chans,
                venue_keys_unique(chans),
                self.has_venue(venue) ==> chans == self.channels@,
                !self.has_venue(venue) ==> chans.len() == self.channels@.len() + 1
                    && chans.subrange(0, self.channels@.len() as int) == self.channels@
                    && chans.last().0 == venue
                    && chans.last().1.capacity@ == DEFAULT_CHANNEL_CAPACITY,
                forall|v: ExchangeId|
                    has_venue_key(chans, v) <==> self.has_venue(v) || v == venue,
                forall|v: ExchangeId|
                    v != venue ==> subs_of(this.subscriptions@, v)
                        == subs_of(self.subscriptions@, v),
                subs_of(this.subscriptions@, venue) == subs_of(self.subscriptions@, venue)
                    + instruments@.take(t as int),
            decreases m - t,
        {
            let ghost before = this.subscriptions@;
            let inst = clone_instrument_at(&instruments, t);
            this.subscriptions.push((venue, inst));
            proof {
                assert(this.subscriptions@.drop_last() =~= before);
                assert(this.subscriptions@.last() == (venue, inst));
                assert forall|v: ExchangeId| v != venue implies subs_of(this.subscriptions@, v)
                    == subs_of(self.subscriptions@, v) by {
                    assert(subs_of(this.subscriptions@, v) == subs_of(before, v));
                }
                assert(inst == instruments@[t as int]);
                assert(instruments@.take(t as int).push(instruments@[t as int])
                    =~= instruments@.take(t as int + 1));
                assert(subs_of(self.subscriptions@, venue)
                    + instruments@.take(t as int + 1)
                    =~= (subs_of(self.subscriptions@, venue)
                        + instruments@.take(t as int)).push(
                        instruments@[t as int],
                    ));
            }
            t = t + 1;
        }
        proof {
            assert(instruments@.take(m as int) =~= instruments@);
        }
        this
    }
}

fn clone_instrument_at(instruments: &Vec<Instrument>, t: usize) -> (r: Instrument)
    requires
        t < instruments@.len(),
    ensures
        r == instruments@[t as int],
{
    instruments[t].clone()
}

/// One venue's producer work order: subscribe the instruments at the
/// venue and feed normalized events into the sender.
#[verifier::reject_recursive_types(Event)]
#[derive(Debug)]
pub struct VenueTask<Event> {
    pub venue: ExchangeId,
    pub instruments: Vec<Instrument>,
    pub tx: tokio::sync::mpsc::Sender<Market<Event>>,
}

/// Consumer-facing handle: one inbound receiver per venue.
#[verifier::reject_recursive_types(T)]
#[derive(Debug)]
pub struct Streams<T> {
    pub streams: Vec<(ExchangeId, tokio::sync::mpsc::Receiver<T>)>,
}

impl<T> Streams<T> {
    /// At most one receiver per venue.
    pub open spec fn wf(&self) -> bool {
        venue_keys_unique(self.streams@)
    }

    /// A receiver exists for `venue`.
    pub open spec fn has_venue(&self, venue: ExchangeId) -> bool {
        has_venue_key(self.streams@, venue)
    }

    /// How many venues the handle covers.
    pub fn len(&self) -> (r: usize)
        ensures
            r == self.streams@.len(),
    {
        self.streams.len()
    }

    /// Remove and return one venue's receiver for isolated consumption;
    /// every other venue's receiver stays, in order.
    pub fn select(&mut self, venue: ExchangeId) -> (r: Option<
        tokio::sync::mpsc::Receiver<T>,
    >)
        ensures
            r is Some <==> old(self).has_venue(venue),
            r is None ==> *final(self) == *old(self),
            r is Some ==> exists|k: int|
                0 <= k < old(self).streams@.len() && (#[trigger] old(self).streams@[k]).0 == venue
                    && r == Some(old(self).streams@[k].1)
                    && final(self).streams@ == old(self).streams@.remove(k),
    {
        let n = self.streams.len();
        let mut k: usize = 0;
        while k < n
            invariant
                0 <= k <= n,
                n == self.streams@.len(),
                *self == *old(self),
                forall|i: int| 0 <= i < k ==> (#[trigger] self.streams@[i]).0 != venue,
            decreases n - k,
        {
            if self.streams[k].0 == venue {
                let (_, rx) = self.streams.remove(k);
                return Some(rx);
            }
            k = k + 1;
        }
        None
    }
}

/// The result of consuming a builder: one producer work order per
/// registered venue, and the handle holding each venue's receiver.
#[verifier::reject_recursive_types(Event)]
#[derive(Debug)]
pub struct InitPlan<Event> {
    pub tasks: Vec<VenueTask<Event>>,
    pub streams: Streams<Market<Event>>,
}

impl<Event> StreamBuilder<Event> {
    /// Consume the builder into its initialization plan: exactly one
    /// producer task per registered venue, carrying that venue's merged
    /// subscription set and a sender into that venue's channel; the
    /// handle keeps each venue's receiver. The builder cannot be reused.
    pub fn init_plan(self) -> (r: InitPlan<Event>)
        requires
            self.wf(),
        ensures
            r.streams.wf(),
            r.tasks@.len() == self.channels@.len(),
            r.streams.streams@.len() == self.channels@.len(),
            forall|i: int|
                0 <= i < self.channels@.len() ==> (#[trigger] r.tasks@[i]).venue
                    == self.channels@[i].0 && r.tasks@[i].instruments@
                    == subs_of(self.subscriptions@, self.channels@[i].0)
                    && r.tasks@[i].tx == self.channels@[i].1.tx,
            forall|i: int|
                0 <= i < self.channels@.len() ==> (#[trigger] r.streams.streams@[i]).0
                    == self.channels@[i].0 && r.streams.streams@[i].1
                    == self.channels@[i].1.rx,
    {
        let StreamBuilder { mut channels, subscriptions } = self;
        let ghost all = channels@;
        let mut tasks: Vec<VenueTask<Event>> = Vec::new();
        let mut receivers: Vec<(ExchangeId, tokio::sync::mpsc::Receiver<Market<Event>>)> =
            Vec::new();
        while channels.len() > 0
            invariant
                tasks@.len() + channels@.len() == all.len(),
                receivers@.len() == tasks@.len(),
                channels@ =~= all.skip(tasks@.len() as int),
                forall|i: int|
                    0 <= i < tasks@.len() ==> (#[trigger] tasks@[i]).venue == all[i].0
                        && tasks@[i].instruments@ == subs_of(
                        subscriptions@,
                        all[i].0,
                    ) && tasks@[i].tx == all[i].1.tx,
                forall|i: int|
                    0 <= i < receivers@.len() ==> (#[trigger] receivers@[i]).0 == all[i].0
                        && receivers@[i].1 == all[i].1.rx,
            decreases channels@.len(),
        {
            let (venue, ch) = channels.remove(0);
            proof {
                assert(all.skip(tasks@.len() as int)[0] == (venue, ch));
            }
            let ExchangeChannel { tx, rx, capacity: _ } = ch;
            let instruments = collect_subs(&subscriptions, venue);
            tasks.push(VenueTask { venue, instruments, tx });
            receivers.push((venue, rx));
            proof {
                assert(channels@ =~= all.skip(tasks@.len() as int));
            }
        }
        let streams = Streams { streams: receivers };
        proof {
            assert(venue_keys_unique(all));
            assert forall|i: int, j: int| 0 <= i < j < streams.streams@.len() implies
                (#[trigger] streams.streams@[i]).0 != (#[trigger] streams.streams@[j]).0 by {
                assert(streams.streams@[i].0 == all[i].0);
                assert(streams.streams@[j].0 == all[j].0);
            }
        }
        InitPlan { tasks, streams }
    }
}

/// Instruments registered for `venue`, in registration order.
fn collect_subs(subscriptions: &Vec<(ExchangeId, Instrument)>, venue: ExchangeId) -> (r: Vec<
    Instrument,
>)
    ensures
        r@ == subs_of(subscriptions@, venue),
{
    let n = subscriptions.len();
    let mut out: Vec<Instrument> = Vec::new();
    let mut i: usize = 0;
    proof {
        assert(out@ =~= subs_of(subscriptions@.take(0), venue));
    }
    while i < n
        invariant
            0 <= i <= n,
            n == subscriptions@.len(),
            out@ == subs_of(subscriptions@.take(i as int), venue),
        decreases n - i,
    {
        let ghost before = out@;
        proof {
            assert(subscriptions@.take(i as int + 1).drop_last() =~= subscriptions@.take(i as int));
            assert(subscriptions@.take(i as int + 1).last() == subscriptions@[i as int]);
        }
        if subscriptions[i].0 == venue {
            let inst = clone_pair_instrument(subscriptions, i);
            out.push(inst);
            proof {
                assert(out@ =~= before.push(subscriptions@[i as int].1));
                assert(subs_of(subscriptions@.take(i as int + 1), venue)
                    == subs_of(subscriptions@.take(i as int), venue).push(
                    subscriptions@[i as int].1,
                ));
            }
        }
        i = i + 1;
    }
    proof {
        assert(subscriptions@.take(n as int) =~= subscriptions@);
    }
    out
}

fn clone_pair_instrument(subscriptions: &Vec<(ExchangeId, Instrument)>, i: usize) -> (r: Instrument)
    requires
        i < subscriptions@.len(),
    ensures
        r == subscriptions@[i as int].1,
{
    subscriptions[i].1.clone()
}

} // verus!
