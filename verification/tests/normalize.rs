//! Normalization adapter scenarios: field coercion, per-record failure
//! isolation, batch shape, and routing-key extraction.

use market_streams::{
    DataError, Decimal, ExchangeId, Instrument, MarketIter, OkxMessage, OkxRawTrade,
    OkxTrade, Side, normalize_trades, parse_decimal, parse_epoch_ms, parse_side,
    parse_u64_digits, subscription_id,
};
use chrono::TimeZone;

fn trade_batch() -> &'static str {
    "{\"arg\":{\"channel\":\"trades\",\"instId\":\"BTC-USDT\"},\"data\":[{\"tradeId\":\"1\",\"px\":\"100.5\",\"sz\":\"0.01\",\"side\":\"buy\",\"ts\":\"1700000000000\"}]}"
}

#[test]
fn trade_batch_normalizes_to_one_event() {
    let received: i64 = 1700000000123;
    let out = normalize_trades(trade_batch(), ExchangeId::Okx, received).unwrap();
    assert_eq!(out.events.len(), 1);
    let m = out.events[0].as_ref().unwrap();
    assert_eq!(m.exchange, ExchangeId::Okx);
    assert_eq!(m.instrument.name, "BTC-USDT");
    assert_eq!(m.received_time, received);
    assert_eq!(m.exchange_time, 1700000000000);
    assert_eq!(m.event.id, "1");
    assert_eq!(m.event.price, Decimal { mantissa: 1005, scale: 1 });
    assert_eq!(m.event.amount, Decimal { mantissa: 1, scale: 2 });
    assert_eq!(m.event.side, Side::Buy);
    // price == 100.5 and amount == 0.01 exactly
    assert_eq!(m.event.price.mantissa as f64 / 10f64.powi(m.event.price.scale as i32), 100.5);
    assert_eq!(m.event.amount.mantissa as f64 / 10f64.powi(m.event.amount.scale as i32), 0.01);
}

#[test]
fn trade_time_is_expected_instant() {
    let out = normalize_trades(trade_batch(), ExchangeId::Okx, 0).unwrap();
    let m = out.events[0].as_ref().unwrap();
    let dt = chrono::Utc.timestamp_millis_opt(m.exchange_time).unwrap();
    assert_eq!(dt.to_rfc3339_opts(chrono::SecondsFormat::Secs, true), "2023-11-14T22:13:20Z");
}

#[test]
fn invalid_record_fails_alone_in_order() {
    let input = "{\"arg\":{\"channel\":\"trades\",\"instId\":\"BTC-USDT\"},\"data\":[{\"tradeId\":\"1\",\"px\":\"abc\",\"sz\":\"0.01\",\"side\":\"buy\",\"ts\":\"1700000000000\"},{\"tradeId\":\"2\",\"px\":\"100.5\",\"sz\":\"0.02\",\"side\":\"sell\",\"ts\":\"1700000000001\"}]}";
    let out = normalize_trades(input, ExchangeId::Okx, 7).unwrap();
    assert_eq!(out.events.len(), 2);
    assert_eq!(out.events[0].as_ref().unwrap_err(), &DataError::InvalidPrice);
    let m = out.events[1].as_ref().unwrap();
    assert_eq!(m.event.id, "2");
    assert_eq!(m.event.side, Side::Sell);
    assert_eq!(m.exchange_time, 1700000000001);
}

#[test]
fn batch_of_three_yields_three_outcomes_in_order() {
    let input = "{\"arg\":{\"channel\":\"trades\",\"instId\":\"ETH-USDT\"},\"data\":[{\"tradeId\":\"a\",\"px\":\"1\",\"sz\":\"2\",\"side\":\"buy\",\"ts\":\"5\"},{\"tradeId\":\"b\",\"px\":\"3\",\"sz\":\"4\",\"side\":\"sell\",\"ts\":\"6\"},{\"tradeId\":\"c\",\"px\":\"5\",\"sz\":\"6\",\"side\":\"buy\",\"ts\":\"7\"}]}";
    let out = normalize_trades(input, ExchangeId::Okx, 0).unwrap();
    assert_eq!(out.events.len(), 3);
    let ids: Vec<String> =
        out.events.iter().map(|e| e.as_ref().unwrap().event.id.clone()).collect();
    assert_eq!(ids, vec!["a".to_string(), "b".to_string(), "c".to_string()]);
}

#[test]
fn empty_batch_yields_no_outcomes() {
    let input = "{\"arg\":{\"channel\":\"trades\",\"instId\":\"BTC-USDT\"},\"data\":[]}";
    let out = normalize_trades(input, ExchangeId::Okx, 0).unwrap();
    assert_eq!(out.events.len(), 0);
}

#[test]
fn malformed_envelope_is_one_message_error() {
    assert_eq!(
        normalize_trades("{\"arg\":{}}", ExchangeId::Okx, 0).unwrap_err(),
        DataError::InvalidMessage
    );
    assert_eq!(normalize_trades("", ExchangeId::Okx, 0).unwrap_err(), DataError::InvalidMessage);
    // trailing whitespace is insignificant; other trailing bytes are refused
    let trailing_ws = format!("{} \n", trade_batch());
    assert!(normalize_trades(&trailing_ws, ExchangeId::Okx, 0).is_ok());
    let trailing = format!("{}x", trade_batch());
    assert_eq!(
        normalize_trades(&trailing, ExchangeId::Okx, 0).unwrap_err(),
        DataError::InvalidMessage
    );
}

#[test]
fn each_field_error_is_typed() {
    let mk = |px: &str, sz: &str, side: &str, ts: &str| -> Result<OkxTrade, DataError> {
        OkxTrade::from_raw(&OkxRawTrade {
            id: "x".to_string(),
            px: px.to_string(),
            sz: sz.to_string(),
            side: side.to_string(),
            ts: ts.to_string(),
        })
    };
    assert_eq!(mk("abc", "1", "buy", "1").unwrap_err(), DataError::InvalidPrice);
    assert_eq!(mk("1", "", "buy", "1").unwrap_err(), DataError::InvalidAmount);
    assert_eq!(mk("1", "1", "hold", "1").unwrap_err(), DataError::InvalidSide);
    assert_eq!(mk("1", "1", "sell", "12x").unwrap_err(), DataError::InvalidTimestamp);
    assert!(mk("1.5", "2", "sell", "3").is_ok());
}

#[test]
fn parse_decimal_exact_values() {
    assert_eq!(parse_decimal("100.5"), Some(Decimal { mantissa: 1005, scale: 1 }));
    assert_eq!(parse_decimal("42"), Some(Decimal { mantissa: 42, scale: 0 }));
    assert_eq!(parse_decimal("0.01"), Some(Decimal { mantissa: 1, scale: 2 }));
    assert_eq!(parse_decimal(""), None);
    assert_eq!(parse_decimal("."), None);
    assert_eq!(parse_decimal(".5"), None);
    assert_eq!(parse_decimal("5."), None);
    assert_eq!(parse_decimal("1.2.3"), None);
    assert_eq!(parse_decimal("-1"), None);
    assert_eq!(parse_decimal("99999999999999999999999999"), None);
}

#[test]
fn parse_epoch_ms_exact_values() {
    assert_eq!(parse_epoch_ms("1700000000000"), Some(1700000000000));
    assert_eq!(parse_epoch_ms("0"), Some(0));
    assert_eq!(parse_epoch_ms(""), None);
    assert_eq!(parse_epoch_ms("12a"), None);
    // fits u64 but not i64
    assert_eq!(parse_epoch_ms("9223372036854775808"), None);
    assert_eq!(parse_u64_digits("9223372036854775808"), Some(9223372036854775808));
    assert_eq!(parse_u64_digits("18446744073709551616"), None);
}

#[test]
fn parse_side_vocabulary() {
    assert_eq!(parse_side("buy"), Some(Side::Buy));
    assert_eq!(parse_side("sell"), Some(Side::Sell));
    assert_eq!(parse_side("hold"), None);
    assert_eq!(parse_side("BUY"), None);
    assert_eq!(parse_side(""), None);
}

#[test]
fn routing_keys_stable_and_distinct() {
    let a = subscription_id("trades", "BTC-USDT");
    let b = subscription_id("trades", "BTC-USDT");
    let c = subscription_id("trades", "ETH-USDT");
    assert_eq!(a, b);
    assert_ne!(a, c);
}

#[test]
fn routing_key_extracted_from_envelope() {
    let msg = OkxMessage::<OkxRawTrade>::parse(trade_batch()).unwrap();
    let key = msg.subscription_id();
    assert_eq!(key.channel, "trades");
    assert_eq!(key.instrument, "BTC-USDT");
    assert_eq!(msg.data.len(), 1);
    assert_eq!(msg.data[0].px, "100.5");
}

#[test]
fn market_iter_from_stamps_wall_clock() {
    let msg = OkxMessage::<OkxRawTrade>::parse(trade_batch()).unwrap();
    let inst = Instrument::new("BTC-USDT".to_string());
    let before = chrono::Utc::now().timestamp_millis();
    let out = MarketIter::from(ExchangeId::Okx, &inst, &msg);
    let after = chrono::Utc::now().timestamp_millis();
    let m = out.events[0].as_ref().unwrap();
    assert!(before <= m.received_time && m.received_time <= after);
}

#[test]
fn envelope_fields_accepted_in_any_order() {
    let input = "{\"data\":[{\"ts\":\"1700000000000\",\"side\":\"buy\",\"sz\":\"0.01\",\"px\":\"100.5\",\"tradeId\":\"1\"}],\"arg\":{\"instId\":\"BTC-USDT\",\"channel\":\"trades\"}}";
    let msg = OkxMessage::<OkxRawTrade>::parse(input).unwrap();
    assert_eq!(msg.subscription_id.channel, "trades");
    assert_eq!(msg.subscription_id.instrument, "BTC-USDT");
    let out = normalize_trades(input, ExchangeId::Okx, 9).unwrap();
    let m = out.events[0].as_ref().unwrap();
    assert_eq!(m.event.price, Decimal { mantissa: 1005, scale: 1 });
    assert_eq!(m.event.side, Side::Buy);
}

#[test]
fn whitespace_is_insignificant() {
    let input = " {\n  \"arg\" : { \"channel\" : \"trades\" , \"instId\" : \"BTC-USDT\" } ,\r\n  \"data\" : [ { \"tradeId\" : \"1\" , \"px\" : \"100.5\" , \"sz\" : \"0.01\" , \"side\" : \"buy\" , \"ts\" : \"1700000000000\" } ]\n } ";
    let out = normalize_trades(input, ExchangeId::Okx, 0).unwrap();
    assert_eq!(out.events.len(), 1);
    assert_eq!(out.events[0].as_ref().unwrap().event.id, "1");
}

#[test]
fn unknown_record_fields_are_skipped() {
    // the venue sends a record-level instrument field; it must be ignored
    let input = "{\"arg\":{\"channel\":\"trades\",\"instId\":\"BTC-USDT\"},\"data\":[{\"instId\":\"BTC-USDT\",\"tradeId\":\"130639474\",\"px\":\"42219.9\",\"sz\":\"0.12060306\",\"side\":\"buy\",\"ts\":\"1630048897897\"}]}";
    let out = normalize_trades(input, ExchangeId::Okx, 0).unwrap();
    let m = out.events[0].as_ref().unwrap();
    assert_eq!(m.event.id, "130639474");
    assert_eq!(m.event.price, Decimal { mantissa: 422199, scale: 1 });
    assert_eq!(m.exchange_time, 1630048897897);
}

#[test]
fn unknown_scalar_members_are_skipped() {
    let input = "{\"note\":true,\"arg\":{\"channel\":\"trades\",\"instId\":\"BTC-USDT\",\"extra\":42},\"data\":[{\"tradeId\":\"1\",\"seq\":7,\"px\":\"1\",\"sz\":\"2\",\"side\":\"sell\",\"ts\":\"3\"}]}";
    let out = normalize_trades(input, ExchangeId::Okx, 0).unwrap();
    assert_eq!(out.events.len(), 1);
    assert_eq!(out.events[0].as_ref().unwrap().event.side, Side::Sell);
}

#[test]
fn duplicate_known_field_rejects_the_unit() {
    let input = "{\"arg\":{\"channel\":\"trades\",\"channel\":\"trades\",\"instId\":\"BTC-USDT\"},\"data\":[]}";
    assert_eq!(normalize_trades(input, ExchangeId::Okx, 0).unwrap_err(), DataError::InvalidMessage);
}

#[test]
fn missing_required_field_rejects_the_unit() {
    let no_inst = "{\"arg\":{\"channel\":\"trades\"},\"data\":[]}";
    assert_eq!(normalize_trades(no_inst, ExchangeId::Okx, 0).unwrap_err(), DataError::InvalidMessage);
    let no_ts = "{\"arg\":{\"channel\":\"trades\",\"instId\":\"X\"},\"data\":[{\"tradeId\":\"1\",\"px\":\"1\",\"sz\":\"2\",\"side\":\"buy\"}]}";
    assert_eq!(normalize_trades(no_ts, ExchangeId::Okx, 0).unwrap_err(), DataError::InvalidMessage);
}
