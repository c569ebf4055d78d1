use barter_data::error::{DataError, SocketError};
use barter_data::exchange::coinbase::Coinbase;
use barter_data::instrument::InstrumentKind;
use barter_data::streams::builder::validate;
use barter_data::subscription::trade::PublicTrades;
use barter_data::subscription::Subscription;

#[test]
fn test_validate() {
    struct TestCase {
        input: Vec<Subscription<Coinbase, PublicTrades>>,
        expected: Result<Vec<Subscription<Coinbase, PublicTrades>>, SocketError>,
    }

    let cases = vec![
        TestCase {
            input: vec![],
            expected: Err(SocketError::Subscribe("".to_string())),
        },
        TestCase {
            input: vec![Subscription::from((
                Coinbase,
                "base",
                "quote",
                InstrumentKind::Spot,
                PublicTrades,
            ))],
            expected: Ok(vec![Subscription::from((
                Coinbase,
                "base",
                "quote",
                InstrumentKind::Spot,
                PublicTrades,
            ))]),
        },
        TestCase {
            input: vec![Subscription::from((
                Coinbase,
                "base",
                "quote",
                InstrumentKind::Perpetual,
                PublicTrades,
            ))],
            expected: Err(SocketError::Subscribe("".to_string())),
        },
    ];

    for (index, test) in cases.into_iter().enumerate() {
        let actual: Result<(), DataError> = validate(&test.input);

        match (actual, test.expected) {
            (Ok(_), Ok(_)) => {
            }
            (Err(_), Err(_)) => {
            }
            (actual, expected) => {
                panic!("TC{index} failed because actual != expected. \nActual: {actual:?}\nExpected: {expected:?}\n");
            }
        }
    }
}

use barter_data::exchange::okx::Okx;
use barter_data::exchange::ExchangeId;
use barter_data::instrument::{Expiry, FutureContract, Instrument};
use barter_data::streams::builder::multi::MultiStreamBuilder;
use barter_data::streams::builder::{
    connection, open_channel, sorted_without_duplicates, start, Signer, StreamBuilder,
};
use barter_data::streams::Streams;
use barter_data::subscription::book::OrderBooksL1;
use barter_data::web::WsMessage;

fn okx_trades(base: &str, quote: &str, kind: InstrumentKind) -> Subscription<Okx, PublicTrades> {
    Subscription::from((Okx, base, quote, kind, PublicTrades))
}

fn frame_text(frame: &WsMessage) -> &str {
    match frame {
        WsMessage::Text(text) => text,
        other => panic!("not a text frame: {other:?}"),
    }
}

#[test]
fn validate_refuses_an_empty_batch() {
    let empty: Vec<Subscription<Coinbase, PublicTrades>> = vec![];
    match validate(&empty) {
        Err(DataError::Socket(SocketError::Subscribe(reason))) => {
            assert_eq!(reason, "StreamBuilder contains no Subscription to action")
        }
        other => panic!("unexpected outcome: {other:?}"),
    }
}

#[test]
fn validate_tells_the_first_unsupported_subscription() {
    let future = InstrumentKind::Future(FutureContract {
        expiry: Expiry { year: 2024, month: 3, day: 29, millis: 0 },
    });
    let batch = vec![
        Subscription::from((Coinbase, "btc", "usd", InstrumentKind::Spot, PublicTrades)),
        Subscription::from((Coinbase, "eth", "usd", future, PublicTrades)),
        Subscription::from((Coinbase, "ltc", "usd", InstrumentKind::Perpetual, PublicTrades)),
    ];
    match validate(&batch) {
        Err(DataError::Socket(SocketError::Unsupported { entity, item })) => {
            assert_eq!(entity, ExchangeId::Coinbase);
            assert_eq!(item, future);
        }
        other => panic!("unexpected outcome: {other:?}"),
    }
    assert!(matches!(
        batch[2].validate(),
        Err(SocketError::Unsupported { entity: ExchangeId::Coinbase, item: InstrumentKind::Perpetual })
    ));
    assert!(batch[0].validate().is_ok());
}

#[test]
fn validate_accepts_what_the_exchange_lists() {
    let batch = vec![
        okx_trades("btc", "usdt", InstrumentKind::Spot),
        okx_trades("btc", "usdt", InstrumentKind::Perpetual),
    ];
    assert!(validate(&batch).is_ok());
}

#[test]
fn duplicates_are_dropped_and_the_rest_is_sorted() {
    let batch = vec![
        okx_trades("eth", "usdt", InstrumentKind::Spot),
        okx_trades("btc", "usdt", InstrumentKind::Perpetual),
        okx_trades("ETH", "USDT", InstrumentKind::Spot),
        okx_trades("btc", "usdt", InstrumentKind::Spot),
        okx_trades("btc", "usdt", InstrumentKind::Perpetual),
        okx_trades("btc", "usd", InstrumentKind::Spot),
    ];
    let distinct = sorted_without_duplicates(batch);
    let names: Vec<(String, String, InstrumentKind)> = distinct
        .iter()
        .map(|s| {
            (s.instrument.base.as_str().to_string(), s.instrument.quote.as_str().to_string(), s.instrument.kind)
        })
        .collect();
    assert_eq!(
        names,
        vec![
            ("btc".to_string(), "usd".to_string(), InstrumentKind::Spot),
            ("btc".to_string(), "usdt".to_string(), InstrumentKind::Spot),
            ("btc".to_string(), "usdt".to_string(), InstrumentKind::Perpetual),
            ("eth".to_string(), "usdt".to_string(), InstrumentKind::Spot),
        ]
    );
}

#[test]
fn sorting_an_empty_batch_gives_an_empty_batch() {
    let empty: Vec<Subscription<Okx, PublicTrades>> = vec![];
    assert!(sorted_without_duplicates(empty).is_empty());
}

#[test]
fn requests_of_a_batch_with_duplicates_name_each_market_once() {
    let batch = vec![
        okx_trades("eth", "usdt", InstrumentKind::Spot),
        okx_trades("btc", "usdt", InstrumentKind::Spot),
        okx_trades("eth", "usdt", InstrumentKind::Spot),
        okx_trades("btc", "usdt", InstrumentKind::Spot),
    ];
    let planned = connection(&None, batch).unwrap();
    assert_eq!(planned.exchange, ExchangeId::Okx);
    assert_eq!(planned.handshake.requests.len(), 1);
    assert_eq!(
        frame_text(&planned.handshake.requests[0]),
        "{\"args\":[{\"channel\":\"trades\",\"instId\":\"BTC-USDT\"},{\"channel\":\"trades\",\"instId\":\"ETH-USDT\"}],\"op\":\"subscribe\"}"
    );
    assert_eq!(planned.handshake.instrument_map.len(), 2);
    assert_eq!(planned.handshake.expected, 2);
    assert_eq!(planned.handshake.timeout, 10_000);
    assert!(planned.handshake.signer.is_none());
    assert_eq!(planned.handshake.url.as_str(), "wss://wsaws.okx.com:8443/ws/v5/public");
    assert_eq!(planned.keepalive.unwrap().interval, 29);
}

#[test]
fn connection_with_credentials_goes_to_the_private_address() {
    let signer = Some(Signer::new("access", "secret", "pass"));
    let planned = connection(&signer, vec![okx_trades("btc", "usdt", InstrumentKind::Spot)]).unwrap();
    assert_eq!(planned.handshake.url.as_str(), "wss://wsaws.okx.com:8443/ws/v5/private");
    assert_eq!(planned.handshake.signer.unwrap().ak, "access");

    let coinbase = connection(
        &signer,
        vec![Subscription::from((Coinbase, "btc", "usd", InstrumentKind::Spot, PublicTrades))],
    )
    .unwrap();
    assert_eq!(coinbase.handshake.url.as_str(), "wss://ws-feed.exchange.coinbase.com");
    assert!(coinbase.handshake.signer.is_none());
    assert!(coinbase.keepalive.is_none());
}

#[test]
fn connection_refuses_what_validate_refuses() {
    let empty: Vec<Subscription<Okx, PublicTrades>> = vec![];
    assert!(matches!(
        connection(&None, empty),
        Err(DataError::Socket(SocketError::Subscribe(_)))
    ));
    let unsupported =
        vec![Subscription::from((Coinbase, "btc", "usd", InstrumentKind::Perpetual, PublicTrades))];
    assert!(matches!(
        connection(&None, unsupported),
        Err(DataError::Socket(SocketError::Unsupported { .. }))
    ));
}

#[test]
fn subscribing_to_one_feed_sets_up_one_stream() {
    let builder = Streams::<u8>::builder::<PublicTrades>()
        .subscribe(vec![okx_trades("btc", "usdt", InstrumentKind::Spot)]);
    assert_eq!(builder.channels, vec![ExchangeId::Okx]);
    assert_eq!(builder.futures.len(), 1);
    let setup = builder.init().unwrap();
    assert_eq!(setup.exchanges, vec![ExchangeId::Okx]);
    assert_eq!(setup.connections.len(), 1);
    assert_eq!(setup.connections[0].exchange, ExchangeId::Okx);

    let mut streams = Streams::new();
    for (exchange, receiver) in setup.exchanges.iter().zip(["trades of okx"]) {
        assert!(streams.insert(*exchange, receiver).is_none());
    }
    assert_eq!(streams.len(), 1);
    assert_eq!(streams.select(ExchangeId::Okx), Some("trades of okx"));
    assert_eq!(streams.len(), 0);
}

#[test]
fn an_exchange_gets_one_channel_however_many_batches() {
    let builder = StreamBuilder::<PublicTrades>::new()
        .subscribe(vec![okx_trades("btc", "usdt", InstrumentKind::Spot)])
        .subscribe(vec![Subscription::from((Coinbase, "btc", "usd", InstrumentKind::Spot, PublicTrades))])
        .subscribe(vec![okx_trades("eth", "usdt", InstrumentKind::Spot)]);
    assert_eq!(builder.channels, vec![ExchangeId::Okx, ExchangeId::Coinbase]);
    let setup = builder.init().unwrap();
    assert_eq!(setup.exchanges, vec![ExchangeId::Okx, ExchangeId::Coinbase]);
    let exchanges: Vec<ExchangeId> = setup.connections.iter().map(|c| c.exchange).collect();
    assert_eq!(exchanges, vec![ExchangeId::Okx, ExchangeId::Coinbase, ExchangeId::Okx]);
}

#[test]
fn init_fails_with_the_first_error_and_starts_nothing() {
    let empty: Vec<Subscription<Okx, PublicTrades>> = vec![];
    let builder = StreamBuilder::<PublicTrades>::new()
        .subscribe(vec![okx_trades("btc", "usdt", InstrumentKind::Spot)])
        .subscribe(vec![Subscription::from((Coinbase, "btc", "usd", InstrumentKind::Perpetual, PublicTrades))])
        .subscribe(empty);
    assert_eq!(builder.futures.len(), 3);
    match builder.init() {
        Err(DataError::Socket(SocketError::Unsupported { entity, item })) => {
            assert_eq!(entity, ExchangeId::Coinbase);
            assert_eq!(item, InstrumentKind::Perpetual);
        }
        other => panic!("unexpected outcome: {other:?}"),
    }
}

#[test]
fn init_of_an_empty_batch_fails() {
    let empty: Vec<Subscription<Okx, PublicTrades>> = vec![];
    let builder = StreamBuilder::<PublicTrades>::new().subscribe(empty);
    assert_eq!(builder.channels, vec![ExchangeId::Okx]);
    assert!(matches!(
        builder.init(),
        Err(DataError::Socket(SocketError::Subscribe(_)))
    ));
}

#[test]
fn init_of_nothing_starts_nothing() {
    let setup = StreamBuilder::<PublicTrades>::new().init().unwrap();
    assert!(setup.exchanges.is_empty());
    assert!(setup.connections.is_empty());
    let started = start(vec![], vec![]).unwrap();
    assert!(started.connections.is_empty());
}

#[test]
fn the_signer_of_a_builder_logs_in_its_batches() {
    let builder = StreamBuilder::<PublicTrades>::new()
        .subscribe(vec![okx_trades("btc", "usdt", InstrumentKind::Spot)])
        .signer(Some(Signer::new("access", "secret", "pass")))
        .subscribe(vec![okx_trades("eth", "usdt", InstrumentKind::Spot)]);
    assert_eq!(builder.signer.as_ref().unwrap().sk, "secret");
    let setup = builder.init().unwrap();
    assert!(setup.connections[0].handshake.signer.is_none());
    assert!(setup.connections[1].handshake.signer.is_some());
    assert_eq!(setup.connections[0].handshake.url.path_str(), "/ws/v5/public");
    assert_eq!(setup.connections[1].handshake.url.path_str(), "/ws/v5/private");
}

#[test]
fn open_channel_adds_an_exchange_once() {
    let mut channels = vec![];
    open_channel(&mut channels, ExchangeId::Okx);
    open_channel(&mut channels, ExchangeId::Kraken);
    open_channel(&mut channels, ExchangeId::Okx);
    assert_eq!(channels, vec![ExchangeId::Okx, ExchangeId::Kraken]);
}

#[test]
fn multi_builder_joins_channels_and_batches() {
    let trades = StreamBuilder::<PublicTrades>::new()
        .subscribe(vec![okx_trades("btc", "usdt", InstrumentKind::Spot)])
        .subscribe(vec![Subscription::from((Coinbase, "btc", "usd", InstrumentKind::Spot, PublicTrades))]);
    let books = StreamBuilder::<OrderBooksL1>::new().subscribe(vec![Subscription::new(
        Okx,
        Instrument::new("eth", "usdt", InstrumentKind::Spot),
        OrderBooksL1,
    )]);
    let multi: MultiStreamBuilder<u8> = Streams::<u8>::builder_multi().add(trades).add(books);
    assert_eq!(multi.channels, vec![ExchangeId::Okx, ExchangeId::Coinbase]);
    assert_eq!(multi.futures.len(), 3);
    let setup = multi.init().unwrap();
    assert_eq!(setup.exchanges, vec![ExchangeId::Okx, ExchangeId::Coinbase]);
    assert_eq!(setup.connections.len(), 3);
    assert_eq!(
        frame_text(&setup.connections[2].handshake.requests[0]),
        "{\"args\":[{\"channel\":\"tickers\",\"instId\":\"ETH-USDT\"}],\"op\":\"subscribe\"}"
    );
}

#[test]
fn multi_builder_fails_with_the_first_error() {
    let empty: Vec<Subscription<Okx, PublicTrades>> = vec![];
    let good = StreamBuilder::<PublicTrades>::new()
        .subscribe(vec![okx_trades("btc", "usdt", InstrumentKind::Spot)]);
    let bad = StreamBuilder::<PublicTrades>::new().subscribe(empty);
    let multi: MultiStreamBuilder<u8> = MultiStreamBuilder::new().add(good).add(bad);
    assert!(matches!(
        multi.init(),
        Err(DataError::Socket(SocketError::Subscribe(_)))
    ));
}

#[test]
fn streams_hold_one_stream_for_each_exchange() {
    let mut streams: Streams<&str> = Streams::new();
    assert_eq!(streams.len(), 0);
    assert_eq!(streams.insert(ExchangeId::Okx, "a"), None);
    assert_eq!(streams.insert(ExchangeId::Kraken, "b"), None);
    assert_eq!(streams.insert(ExchangeId::Okx, "c"), Some("c"));
    assert_eq!(streams.len(), 2);
    assert_eq!(streams.select(ExchangeId::Coinbase), None);
    assert_eq!(streams.select(ExchangeId::Okx), Some("a"));
    assert_eq!(streams.select(ExchangeId::Okx), None);
    assert_eq!(streams.len(), 1);
    assert_eq!(streams.select(ExchangeId::Kraken), Some("b"));
    assert_eq!(streams.len(), 0);
}

#[test]
fn streams_hand_out_their_entries() {
    let mut streams: Streams<u8> = Streams::new();
    assert_eq!(streams.insert(ExchangeId::Okx, 1), None);
    assert_eq!(streams.insert(ExchangeId::Coincall, 2), None);
    assert_eq!(streams.into_entries(), vec![(ExchangeId::Okx, 1), (ExchangeId::Coincall, 2)]);
}
