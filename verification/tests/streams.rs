//! Composition-engine scenarios: builder aggregation, shared unified
//! channels, fail-fast initialization, forwarding delivery and isolation
//! between venues.

use market_streams::{
    BybitServerFuturesUsd, DataError, Decimal, ExchangeId, Instrument, Market,
    MultiStreamBuilder, PublicTrade, Side, StreamBuilder, WEBSOCKET_BASE_URL_BYBIT_FUTURES_USD,
};

fn instrument(name: &str) -> Instrument {
    Instrument::new(name.to_string())
}

fn trade(venue: ExchangeId, id: &str) -> Market<PublicTrade> {
    Market {
        exchange_time: 1,
        received_time: 2,
        exchange: venue,
        instrument: instrument("BTC-USDT"),
        event: PublicTrade {
            id: id.to_string(),
            price: Decimal { mantissa: 1005, scale: 1 },
            amount: Decimal { mantissa: 1, scale: 2 },
            side: Side::Buy,
        },
    }
}

/// A caller-chosen unified output type, constructible from the trade kind.
#[derive(Debug)]
struct Unified {
    venue: ExchangeId,
    id: String,
}

impl From<Market<PublicTrade>> for Unified {
    fn from(m: Market<PublicTrade>) -> Unified {
        Unified { venue: m.exchange, id: m.event.id }
    }
}

#[test]
fn builder_merges_same_venue_registrations() {
    let b = StreamBuilder::<PublicTrade>::new()
        .add(ExchangeId::Okx, vec![instrument("BTC-USDT")])
        .add(ExchangeId::Okx, vec![instrument("ETH-USDT")])
        .add(ExchangeId::BybitFuturesUsd, vec![instrument("BTC-USDT")]);
    assert_eq!(b.channels.len(), 2);
    assert_eq!(b.subscriptions.len(), 3);
    let plan = b.init_plan();
    assert_eq!(plan.tasks.len(), 2);
    let okx = plan.tasks.iter().find(|t| t.venue == ExchangeId::Okx).unwrap();
    let names: Vec<&str> = okx.instruments.iter().map(|i| i.name.as_str()).collect();
    assert_eq!(names, vec!["BTC-USDT", "ETH-USDT"]);
    assert_eq!(plan.streams.len(), 2);
}

#[test]
fn composing_two_builders_shares_one_unified_channel() {
    let b1 = StreamBuilder::<PublicTrade>::new().add(ExchangeId::Okx, vec![instrument("BTC-USDT")]);
    let b2 = StreamBuilder::<PublicTrade>::new().add(ExchangeId::Okx, vec![instrument("ETH-USDT")]);
    let multi = MultiStreamBuilder::<Unified>::new();
    let (multi, p1) = multi.add(b1);
    let (multi, p2) = multi.add(b2);
    assert_eq!(multi.channels.len(), 1);
    assert_eq!(multi.channels[0].0, ExchangeId::Okx);
    assert_eq!(multi.pending, 2);
    assert_eq!(p1.venue_txs.len(), 1);
    assert_eq!(p2.venue_txs.len(), 1);
}

#[test]
fn init_fails_fast_with_first_error() {
    let b = StreamBuilder::<PublicTrade>::new().add(ExchangeId::Okx, vec![instrument("BTC-USDT")]);
    let multi = MultiStreamBuilder::<Unified>::new();
    let (multi, _plan) = multi.add(b);
    let first = DataError::Setup { venue: ExchangeId::Okx };
    let r = multi.init(vec![Err(first)]);
    assert_eq!(r.unwrap_err(), first);
}

#[test]
fn init_reports_first_error_in_order() {
    let b1 = StreamBuilder::<PublicTrade>::new().add(ExchangeId::Okx, vec![instrument("BTC-USDT")]);
    let b2 = StreamBuilder::<PublicTrade>::new()
        .add(ExchangeId::BybitFuturesUsd, vec![instrument("BTC-USDT")]);
    let b3 = StreamBuilder::<PublicTrade>::new().add(ExchangeId::Okx, vec![instrument("ETH-USDT")]);
    let multi = MultiStreamBuilder::<Unified>::new();
    let (multi, _p1) = multi.add(b1);
    let (multi, _p2) = multi.add(b2);
    let (multi, _p3) = multi.add(b3);
    let r = multi.init(vec![
        Ok(()),
        Err(DataError::Setup { venue: ExchangeId::BybitFuturesUsd }),
        Err(DataError::Setup { venue: ExchangeId::Okx }),
    ]);
    assert_eq!(r.unwrap_err(), DataError::Setup { venue: ExchangeId::BybitFuturesUsd });
}

#[test]
fn init_success_hands_out_every_venue() {
    let b1 = StreamBuilder::<PublicTrade>::new().add(ExchangeId::Okx, vec![instrument("BTC-USDT")]);
    let b2 = StreamBuilder::<PublicTrade>::new()
        .add(ExchangeId::BybitFuturesUsd, vec![instrument("BTC-USDT")]);
    let multi = MultiStreamBuilder::<Unified>::new();
    let (multi, _p1) = multi.add(b1);
    let (multi, _p2) = multi.add(b2);
    let mut streams = multi.init(vec![Ok(()), Ok(())]).unwrap();
    assert_eq!(streams.len(), 2);
    assert!(streams.select(ExchangeId::Okx).is_some());
    assert!(streams.select(ExchangeId::Okx).is_none());
    assert!(streams.select(ExchangeId::BybitFuturesUsd).is_some());
    assert_eq!(streams.len(), 0);
}

/// Drive one forward plan as the surrounding runtime would: consume the
/// builder into its init plan, and for each venue spawn one forwarding
/// task mapping per-kind events into the venue's unified sender. Returns
/// the per-venue producer senders for the test to feed.
fn drive_plan(
    plan: market_streams::ForwardPlan<Unified, PublicTrade>,
) -> Vec<(ExchangeId, tokio::sync::mpsc::Sender<Market<PublicTrade>>)> {
    let init = plan.builder.init_plan();
    let mut kind_streams = init.streams;
    let mut producers = Vec::new();
    for (venue, unified_tx) in plan.venue_txs {
        let mut kind_rx = kind_streams.select(venue).unwrap();
        tokio::spawn(async move {
            while let Some(event) = kind_rx.recv().await {
                // a closed unified channel is a silent drop, not an error
                let _ = unified_tx.send(Unified::from(event)).await;
            }
        });
    }
    for task in init.tasks {
        producers.push((task.venue, task.tx));
    }
    producers
}

#[test]
fn events_from_both_kinds_interleave_on_one_unified_channel() {
    let rt = tokio::runtime::Builder::new_current_thread().build().unwrap();
    rt.block_on(async {
        let b1 = StreamBuilder::<PublicTrade>::new()
            .add(ExchangeId::Okx, vec![instrument("BTC-USDT")]);
        let b2 = StreamBuilder::<PublicTrade>::new()
            .add(ExchangeId::Okx, vec![instrument("ETH-USDT")]);
        let multi = MultiStreamBuilder::<Unified>::new();
        let (multi, p1) = multi.add(b1);
        let (multi, p2) = multi.add(b2);
        let mut streams = multi.init(vec![Ok(()), Ok(())]).unwrap();
        let mut unified_rx = streams.select(ExchangeId::Okx).unwrap();

        let prod1 = drive_plan(p1);
        let prod2 = drive_plan(p2);
        let tx1 = &prod1[0].1;
        let tx2 = &prod2[0].1;
        tx1.send(trade(ExchangeId::Okx, "k1-1")).await.unwrap();
        tx2.send(trade(ExchangeId::Okx, "k2-1")).await.unwrap();
        tx1.send(trade(ExchangeId::Okx, "k1-2")).await.unwrap();
        tx2.send(trade(ExchangeId::Okx, "k2-2")).await.unwrap();
        drop(prod1);
        drop(prod2);

        let mut got: Vec<String> = Vec::new();
        while let Some(u) = unified_rx.recv().await {
            assert_eq!(u.venue, ExchangeId::Okx);
            got.push(u.id);
        }
        assert_eq!(got.len(), 4);
        // same-source order is preserved
        let k1: Vec<&String> = got.iter().filter(|id| id.starts_with("k1")).collect();
        let k2: Vec<&String> = got.iter().filter(|id| id.starts_with("k2")).collect();
        assert_eq!(k1, vec!["k1-1", "k1-2"]);
        assert_eq!(k2, vec!["k2-1", "k2-2"]);
    });
}

#[test]
fn dropped_receiver_does_not_stall_other_venues() {
    let rt = tokio::runtime::Builder::new_current_thread().build().unwrap();
    rt.block_on(async {
        let b = StreamBuilder::<PublicTrade>::new()
            .add(ExchangeId::Okx, vec![instrument("BTC-USDT")])
            .add(ExchangeId::BybitFuturesUsd, vec![instrument("BTC-USDT")]);
        let multi = MultiStreamBuilder::<Unified>::new();
        let (multi, plan) = multi.add(b);
        let mut streams = multi.init(vec![Ok(())]).unwrap();
        let okx_rx = streams.select(ExchangeId::Okx).unwrap();
        let mut bybit_rx = streams.select(ExchangeId::BybitFuturesUsd).unwrap();
        // the consumer stops listening to one venue entirely
        drop(okx_rx);

        let producers = drive_plan(plan);
        for (venue, tx) in &producers {
            for i in 0..3 {
                tx.send(trade(*venue, &format!("{i}"))).await.unwrap();
            }
        }
        drop(producers);

        let mut got = 0;
        while let Some(u) = bybit_rx.recv().await {
            assert_eq!(u.venue, ExchangeId::BybitFuturesUsd);
            got += 1;
        }
        assert_eq!(got, 3);
    });
}

#[test]
fn bybit_server_descriptor() {
    assert_eq!(BybitServerFuturesUsd::id(), ExchangeId::BybitFuturesUsd);
    assert_eq!(BybitServerFuturesUsd::websocket_url(), "wss://stream.bybit.com/v5/public/linear");
    assert_eq!(
        WEBSOCKET_BASE_URL_BYBIT_FUTURES_USD,
        "wss://stream.bybit.com/v5/public/linear"
    );
    assert_eq!(BybitServerFuturesUsd::default(), BybitServerFuturesUsd);
}
