//! Bybit USD-margined futures venue-server descriptor.

use vstd::prelude::*;
use crate::model::ExchangeId;

verus! {

/// Bybit USD-margined futures WebSocket server base url.
pub const WEBSOCKET_BASE_URL_BYBIT_FUTURES_USD: &'static str =
    "wss://stream.bybit.com/v5/public/linear";

/// Bybit USD-margined futures venue server.
#[derive(Copy, Clone, Eq, PartialEq, Structural, Ord, PartialOrd, Hash, Debug)]
pub struct BybitServerFuturesUsd;

impl BybitServerFuturesUsd {
    /// Stable identifier of this venue.
    pub fn id() -> (r: ExchangeId)
        ensures
            r == ExchangeId::BybitFuturesUsd,
    {
        ExchangeId::BybitFuturesUsd
    }

    /// Endpoint descriptor used only to name and route, never interpreted.
    pub fn websocket_url() -> (r: &'static str)
        ensures
            r@ == WEBSOCKET_BASE_URL_BYBIT_FUTURES_USD@,
    {
        WEBSOCKET_BASE_URL_BYBIT_FUTURES_USD
    }
}

impl Default for BybitServerFuturesUsd {
    fn default() -> (r: Self)
        ensures
            r == BybitServerFuturesUsd,
    {
        BybitServerFuturesUsd
    }
}

} // verus!
