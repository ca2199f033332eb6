//! Market-data stream unification.
//!
//! Ingests venue-specific wire messages, normalizes them into canonical
//! market events correlated to subscriptions via routing keys, and composes
//! per-kind, per-venue producers into unified per-venue output channels.

use vstd::prelude::*;

mod builder;
mod bybit;
mod channel;
mod clock;
mod decode;
mod model;
mod multi;
mod okx;
mod subscription;

pub use builder::{InitPlan, StreamBuilder, Streams, VenueTask, subs_of};
pub use bybit::{BybitServerFuturesUsd, WEBSOCKET_BASE_URL_BYBIT_FUTURES_USD};
pub use channel::{
    DEFAULT_CHANNEL_CAPACITY, ExchangeChannel, MAX_CHANNEL_CAPACITY, count_venue_key,
    has_venue_key,
    lemma_unique_venue_count, venue_keys_unique,
};
pub use decode::{
    all_digits, digit_val, digits_val, eq_str, find_dot, is_digit, parse_decimal,
    parse_epoch_ms, parse_side, parse_u64_digits, spec_parse_decimal, spec_parse_side,
    valid_epoch_ms_text, valid_u64_text,
};
pub use model::{
    DataError, Decimal, ExchangeId, Instrument, Market, MarketIter, PublicTrade, Side,
};
pub use multi::{
    ForwardPlan, MultiStreamBuilder, first_error, lemma_kinds_converge, lemma_one_forwarder_per_venue,
    lemma_one_unified_channel_per_venue, lemma_sends_into_preserved, sends_into,
    spec_first_error,
};
pub use okx::{
    OkxChannel, OkxMessage, OkxRawTrade, OkxRawTradeView, OkxTrade, OkxTrades,
    OkxTradesView, RecordFieldsView, is_prim_char, is_ws, normalize_trades,
    normalizes_batch, parse_trades_wire, scan_prim, scan_quote, skip_ws,
    spec_parse_arg, spec_parse_arg_members, spec_parse_envelope_members,
    spec_parse_key, spec_parse_record, spec_parse_record_members, spec_parse_records,
    spec_parse_records_rest, spec_parse_string, spec_parse_string_value,
    spec_parse_trades, spec_skip_value, trade_decodes_to, trade_normalizes_to,
};
pub use subscription::{
    SubscriptionId, key_eq, lemma_routing_key_distinct, lemma_routing_key_stable,
    subscription_id,
};
