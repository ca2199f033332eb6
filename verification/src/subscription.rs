//! Subscription routing keys.
//!
//! A routing key correlates an inbound multiplexed frame to a logical
//! subscription from (channel name, instrument identifier) alone, so the
//! dispatch layer needs no venue-specific schema knowledge.

use vstd::prelude::*;

verus! {

/// Venue-agnostic routing key: (normalized channel name, normalized
/// instrument identifier).
#[derive(Debug, Hash)]
pub struct SubscriptionId {
    pub channel: String,
    pub instrument: String,
}

/// What equality of routing keys means: both components agree.
pub open spec fn key_eq(a: &SubscriptionId, b: &SubscriptionId) -> bool {
    a.channel@ == b.channel@ && a.instrument@ == b.instrument@
}

impl Clone for SubscriptionId {
    fn clone(&self) -> (r: Self)
        ensures
            r == *self,
    {
        SubscriptionId { channel: self.channel.clone(), instrument: self.instrument.clone() }
    }
}

impl PartialEq for SubscriptionId {
    fn eq(&self, other: &Self) -> (r: bool) {
        self.channel == other.channel && self.instrument == other.instrument
    }
}

impl Eq for SubscriptionId {}

impl vstd::std_specs::cmp::PartialEqSpecImpl for SubscriptionId {
    open spec fn obeys_eq_spec() -> bool {
        true
    }

    open spec fn eq_spec(&self, other: &Self) -> bool {
        key_eq(self, other)
    }
}

/// Build the routing key for one (channel, instrument) pair.
pub fn subscription_id(channel: &str, inst_id: &str) -> (r: SubscriptionId)
    ensures
        r.channel@ == channel@,
        r.instrument@ == inst_id@,
{
    SubscriptionId { channel: channel.to_owned(), instrument: inst_id.to_owned() }
}

/// Routing keys are stable: re-encoding the same (channel, instrument)
/// pair always yields an equal key.
pub proof fn lemma_routing_key_stable(a: SubscriptionId, b: SubscriptionId)
    requires
        a.channel@ == b.channel@,
        a.instrument@ == b.instrument@,
    ensures
        key_eq(&a, &b),
{
}

/// Distinct instruments under the same channel yield distinct keys.
pub proof fn lemma_routing_key_distinct(a: SubscriptionId, b: SubscriptionId)
    requires
        a.channel@ == b.channel@,
        a.instrument@ != b.instrument@,
    ensures
        !key_eq(&a, &b),
{
}

} // verus!
