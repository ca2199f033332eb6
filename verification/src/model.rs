//! Canonical, venue-agnostic event model.

use vstd::prelude::*;

verus! {

/// Identifier of a market-data venue.
#[derive(Clone, Copy, PartialEq, Eq, Structural, Debug, Hash)]
pub enum ExchangeId {
    Okx,
    BybitFuturesUsd,
}

/// Canonical two-valued trade direction.
#[derive(Clone, Copy, PartialEq, Eq, Structural, Debug, Hash)]
pub enum Side {
    Buy,
    Sell,
}

/// Exact decimal quantity: the represented value is
/// `mantissa / 10^scale`. Venues transmit prices and sizes as decimal
/// text; keeping mantissa and scale preserves them exactly.
#[derive(Clone, Copy, PartialEq, Eq, Structural, Debug, Hash)]
pub struct Decimal {
    pub mantissa: u64,
    pub scale: u32,
}

/// Instrument identifier as the venue names it (e.g. `BTC-USDT`).
#[derive(Debug)]
pub struct Instrument {
    pub name: String,
}

impl View for Instrument {
    type V = Seq<char>;

    open spec fn view(&self) -> Seq<char> {
        self.name@
    }
}

impl Instrument {
    pub fn new(name: String) -> (r: Instrument)
        ensures
            r@ == name@,
    {
        Instrument { name }
    }
}

impl Clone for Instrument {
    fn clone(&self) -> (r: Self)
        ensures
            r == *self,
    {
        Instrument { name: self.name.clone() }
    }
}

/// Canonical public trade payload.
#[derive(Debug)]
pub struct PublicTrade {
    pub id: String,
    pub price: Decimal,
    pub amount: Decimal,
    pub side: Side,
}

/// Canonical event envelope: one normalized market occurrence.
/// Timestamps are epoch milliseconds; `exchange_time <= received_time`
/// is expected but deliberately not enforced (clock skew is tolerated).
#[derive(Debug)]
pub struct Market<Event> {
    pub exchange_time: i64,
    pub received_time: i64,
    pub exchange: ExchangeId,
    pub instrument: Instrument,
    pub event: Event,
}

/// Errors of the stream-unification core.
#[derive(Clone, Copy, PartialEq, Eq, Structural, Debug)]
pub enum DataError {
    /// A record's price text is not a valid decimal.
    InvalidPrice,
    /// A record's size text is not a valid decimal.
    InvalidAmount,
    /// A record's side token is not in the venue's vocabulary.
    InvalidSide,
    /// A record's timestamp text is not valid epoch milliseconds.
    InvalidTimestamp,
    /// The wire message as a whole does not match the venue's shape.
    InvalidMessage,
    /// A venue's producer failed to start.
    Setup { venue: ExchangeId },
}

/// Finite batch of normalization outcomes for one wire message:
/// one entry per wire record, each independently fallible.
#[derive(Debug)]
pub struct MarketIter<Event> {
    pub events: Vec<Result<Market<Event>, DataError>>,
}

} // verus!
