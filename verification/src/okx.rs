//! OKX venue normalization adapter.
//!
//! Turns one OKX trade wire unit into a finite batch of canonical trade
//! events: the routing key is extracted from the envelope before the
//! payload body is interpreted, and each record is decoded independently,
//! so one malformed record fails alone without discarding its siblings.

use vstd::prelude::*;
use crate::decode::{
    digits_val, parse_decimal, parse_epoch_ms, parse_side, spec_parse_decimal,
    spec_parse_side, valid_epoch_ms_text,
};
use crate::model::{
    DataError, Decimal, ExchangeId, Instrument, Market, MarketIter, PublicTrade, Side,
};
use crate::subscription::{SubscriptionId, subscription_id};

mod wire;

pub use wire::{
    OkxRawTrade, OkxRawTradeView, OkxTradesView, RecordFieldsView, is_prim_char, is_ws,
    parse_trades_wire, scan_prim, scan_quote, skip_ws, spec_parse_arg,
    spec_parse_arg_members, spec_parse_envelope_members, spec_parse_key,
    spec_parse_record, spec_parse_record_members, spec_parse_records,
    spec_parse_records_rest, spec_parse_string, spec_parse_string_value,
    spec_parse_trades, spec_skip_value,
};

verus! {

/// An OKX channel name.
#[derive(Clone, Copy, Debug)]
pub struct OkxChannel {
    pub name: &'static str,
}

/// OKX market-data wire message: a routing key derived from the `arg`
/// envelope, and the payload records.
#[derive(Debug)]
pub struct OkxMessage<T> {
    pub subscription_id: SubscriptionId,
    pub data: Vec<T>,
}

/// Terse alias for an OKX real-time trades wire message.
pub type OkxTrades = OkxMessage<OkxRawTrade>;

impl<T> OkxMessage<T> {
    /// Routing key correlating this message to its logical subscription.
    pub fn subscription_id(&self) -> (r: SubscriptionId)
        ensures
            r == self.subscription_id,
    {
        self.subscription_id.clone()
    }
}

/// Canonical OKX trade record after field coercion.
#[derive(Debug)]
pub struct OkxTrade {
    pub id: String,
    pub price: Decimal,
    pub amount: Decimal,
    pub side: Side,
    pub time: i64,
}

impl OkxMessage<OkxTrade> {
    /// The OKX channel this message kind belongs to.
    pub fn id() -> (r: OkxChannel)
        ensures
            r.name@ == "trades"@,
    {
        OkxChannel { name: "trades" }
    }
}

/// Exact outcome of decoding one raw record: the first malformed field
/// (price, size, side, then timestamp) fails it; otherwise every field is
/// the coercion of its wire text.
pub open spec fn trade_decodes_to(raw: OkxRawTradeView, r: Result<OkxTrade, DataError>) -> bool {
    if spec_parse_decimal(raw.px) is None {
        r == Err::<OkxTrade, DataError>(DataError::InvalidPrice)
    } else if spec_parse_decimal(raw.sz) is None {
        r == Err::<OkxTrade, DataError>(DataError::InvalidAmount)
    } else if spec_parse_side(raw.side) is None {
        r == Err::<OkxTrade, DataError>(DataError::InvalidSide)
    } else if !valid_epoch_ms_text(raw.ts) {
        r == Err::<OkxTrade, DataError>(DataError::InvalidTimestamp)
    } else {
        &&& r matches Ok(t)
        &&& t.id@ == raw.id
        &&& Some(t.price) == spec_parse_decimal(raw.px)
        &&& Some(t.amount) == spec_parse_decimal(raw.sz)
        &&& Some(t.side) == spec_parse_side(raw.side)
        &&& t.time == digits_val(raw.ts)
    }
}

impl OkxTrade {
    /// Coerce one raw record's fields; a malformed field fails only this
    /// record, never the whole batch.
    pub fn from_raw(raw: &OkxRawTrade) -> (r: Result<OkxTrade, DataError>)
        ensures
            trade_decodes_to(raw@, r),
    {
        let price = match parse_decimal(raw.px.as_str()) {
            Some(p) => p,
            None => { return Err(DataError::InvalidPrice); },
        };
        let amount = match parse_decimal(raw.sz.as_str()) {
            Some(a) => a,
            None => { return Err(DataError::InvalidAmount); },
        };
        let side = match parse_side(raw.side.as_str()) {
            Some(sd) => sd,
            None => { return Err(DataError::InvalidSide); },
        };
        let time = match parse_epoch_ms(raw.ts.as_str()) {
            Some(t) => t,
            None => { return Err(DataError::InvalidTimestamp); },
        };
        Ok(OkxTrade { id: raw.id.clone(), price, amount, side, time })
    }
}

/// Exact outcome of normalizing one raw record into a canonical event:
/// errors exactly as in `trade_decodes_to`; on success, a canonical event
/// carrying the coerced fields, the venue, the instrument, and the given
/// receipt timestamp.
pub open spec fn trade_normalizes_to(
    raw: OkxRawTradeView,
    exchange: ExchangeId,
    instrument: Seq<char>,
    received_time: i64,
    e: Result<Market<PublicTrade>, DataError>,
) -> bool {
    match e {
        Err(err) => trade_decodes_to(raw, Err(err)),
        Ok(m) => {
            &&& m.exchange == exchange
            &&& m.instrument@ == instrument
            &&& m.received_time == received_time
            &&& valid_epoch_ms_text(raw.ts)
            &&& m.exchange_time == digits_val(raw.ts)
            &&& m.event.id@ == raw.id
            &&& Some(m.event.price) == spec_parse_decimal(raw.px)
            &&& Some(m.event.amount) == spec_parse_decimal(raw.sz)
            &&& Some(m.event.side) == spec_parse_side(raw.side)
        },
    }
}

/// A valid wire batch of N records yields exactly N outcomes, one per
/// record in input order, each independently a success or a decode error.
pub open spec fn normalizes_batch(
    data: Seq<OkxRawTradeView>,
    exchange: ExchangeId,
    instrument: Seq<char>,
    received_time: i64,
    events: Seq<Result<Market<PublicTrade>, DataError>>,
) -> bool {
    &&& events.len() == data.len()
    &&& forall|i: int|
        0 <= i < data.len() ==> trade_normalizes_to(
            data[i],
            exchange,
            instrument,
            received_time,
            #[trigger] events[i],
        )
}

impl MarketIter<PublicTrade> {
    /// Normalize every record of one wire message with the given receipt
    /// timestamp.
    pub fn from_at(
        exchange_id: ExchangeId,
        instrument: &Instrument,
        message: &OkxMessage<OkxRawTrade>,
        received_time: i64,
    ) -> (r: MarketIter<PublicTrade>)
        ensures
            normalizes_batch(
                message.data.deep_view(),
                exchange_id,
                instrument@,
                received_time,
                r.events@,
            ),
    {
        let mut events: Vec<Result<Market<PublicTrade>, DataError>> = Vec::new();
        let n = message.data.len();
        let mut i: usize = 0;
        while i < n
            invariant
                0 <= i <= n,
                n == message.data@.len(),
                events@.len() == i,
                forall|k: int|
                    0 <= k < i ==> trade_normalizes_to(
                        message.data@[k]@,
                        exchange_id,
                        instrument@,
                        received_time,
                        #[trigger] events@[k],
                    ),
            decreases n - i,
        {
            let raw = &message.data[i];
            let e = match OkxTrade::from_raw(raw) {
                Ok(t) => Ok(Market {
                    exchange_time: t.time,
                    received_time,
                    exchange: exchange_id,
                    instrument: instrument.clone(),
                    event: PublicTrade { id: t.id, price: t.price, amount: t.amount, side: t.side },
                }),
                Err(err) => Err(err),
            };
            events.push(e);
            i = i + 1;
        }
        proof {
            assert forall|k: int| 0 <= k < message.data.deep_view().len() implies
                trade_normalizes_to(
                    message.data.deep_view()[k],
                    exchange_id,
                    instrument@,
                    received_time,
                    #[trigger] events@[k],
                ) by {
                assert(message.data.deep_view()[k] == message.data@[k]@);
            }
        }
        MarketIter { events }
    }

    /// Normalize every record of one wire message, stamping the receipt
    /// timestamp from the wall clock at normalization time.
    pub fn from(
        exchange_id: ExchangeId,
        instrument: &Instrument,
        message: &OkxMessage<OkxRawTrade>,
    ) -> (r: MarketIter<PublicTrade>)
        ensures
            exists|now: i64|
                normalizes_batch(
                    message.data.deep_view(),
                    exchange_id,
                    instrument@,
                    now,
                    r.events@,
                ),
    {
        let now = crate::clock::now_epoch_ms();
        let r = Self::from_at(exchange_id, instrument, message, now);
        proof {
            assert(normalizes_batch(
                message.data.deep_view(),
                exchange_id,
                instrument@,
                now,
                r.events@,
            ));
        }
        r
    }
}

impl OkxMessage<OkxRawTrade> {
    /// Deserialize one wire unit: extract the routing key from the
    /// envelope and keep every payload record raw.
    pub fn parse(input: &str) -> (r: Result<OkxMessage<OkxRawTrade>, DataError>)
        ensures
            r is Ok <==> spec_parse_trades(input@) is Some,
            r matches Ok(m) ==> (spec_parse_trades(input@) matches Some(v)
                && m.subscription_id.channel@ == v.channel
                && m.subscription_id.instrument@ == v.instrument
                && m.data.deep_view() == v.data),
            r matches Err(e) ==> e == DataError::InvalidMessage,
    {
        match parse_trades_wire(input) {
            Some((channel, inst, data)) => {
                let key = subscription_id(channel.as_str(), inst.as_str());
                Ok(OkxMessage { subscription_id: key, data })
            },
            None => Err(DataError::InvalidMessage),
        }
    }
}

/// Whole-adapter contract: deserialize one wire unit and normalize every
/// record, correlating events to the instrument named by the envelope.
pub fn normalize_trades(input: &str, exchange_id: ExchangeId, received_time: i64) -> (r: Result<
    MarketIter<PublicTrade>,
    DataError,
>)
    ensures
        r is Ok <==> spec_parse_trades(input@) is Some,
        r matches Ok(mi) ==> (spec_parse_trades(input@) matches Some(v)
            && normalizes_batch(v.data, exchange_id, v.instrument, received_time, mi.events@)),
        r matches Err(e) ==> e == DataError::InvalidMessage,
{
    match OkxMessage::<OkxRawTrade>::parse(input) {
        Ok(m) => {
            let inst = Instrument::new(m.subscription_id.instrument.clone());
            Ok(MarketIter::from_at(exchange_id, &inst, &m, received_time))
        },
        Err(e) => Err(e),
    }
}

} // verus!
