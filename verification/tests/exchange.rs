use barter_data::error::SocketError;
use barter_data::exchange::coinbase::{Coinbase, CoinbaseChannel, CoinbaseMarket};
use barter_data::exchange::coincall::channel::CoincallChannel;
use barter_data::exchange::coincall::market::CoincallMarket;
use barter_data::exchange::coincall::Coincall;
use barter_data::exchange::okx::channel::OkxChannel;
use barter_data::exchange::okx::market::OkxMarket;
use barter_data::exchange::okx::message::OkxArg;
use barter_data::exchange::okx::subscription::{OkxLoginResponse, OkxSubResponse};
use barter_data::exchange::okx::Okx;
use barter_data::exchange::{
    dashed_market_text, subscription_id, Connector, ExchangeId, ExchangeSub,
    DEFAULT_SUBSCRIPTION_TIMEOUT,
};
use barter_data::instrument::{
    Expiry, FutureContract, Instrument, InstrumentKind, OptionContract, OptionExercise, OptionKind,
};
use barter_data::streams::builder::LoginAnswer;
use barter_data::subscriber::mapper::{SubscriptionMapper, WebSocketSubMapper};
use barter_data::subscription::balance::Balances;
use barter_data::subscription::book::OrderBooksL1;
use barter_data::subscription::mark_price::MarkPrices;
use barter_data::subscription::option_summary::OptionSummaries;
use barter_data::subscription::trade::PublicTrades;
use barter_data::subscription::{InstrumentMap, Subscription, SubscriptionId};
use barter_data::web::WsMessage;
use barter_data::{Identifier, Named};

fn text(frame: &WsMessage) -> &str {
    match frame {
        WsMessage::Text(text) => text,
        other => panic!("not a text frame: {other:?}"),
    }
}

fn option(kind: OptionKind, strike: u64) -> InstrumentKind {
    InstrumentKind::Option(OptionContract {
        kind,
        exercise: OptionExercise::American,
        expiry: Expiry { year: 2020, month: 1, day: 3, millis: 28_800_000 },
        strike,
    })
}

#[test]
fn exchanges_have_their_names() {
    assert_eq!(ExchangeId::BinanceFuturesUsd.as_str(), "binance_futures_usd");
    assert_eq!(ExchangeId::BinanceSpot.as_str(), "binance_spot");
    assert_eq!(ExchangeId::Bitfinex.as_str(), "bitfinex");
    assert_eq!(ExchangeId::Coinbase.as_str(), "coinbase");
    assert_eq!(ExchangeId::Coincall.as_str(), "coincall");
    assert_eq!(ExchangeId::GateioSpot.as_str(), "gateio_spot");
    assert_eq!(ExchangeId::Kraken.as_str(), "kraken");
    assert_eq!(ExchangeId::Okx.as_str(), "okx");
}

#[test]
fn exchanges_list_their_kinds_of_instrument() {
    let future = InstrumentKind::Future(FutureContract {
        expiry: Expiry { year: 2024, month: 3, day: 29, millis: 0 },
    });
    let call = option(OptionKind::Call, 1);
    assert!(ExchangeId::Okx.supports(&InstrumentKind::Spot));
    assert!(ExchangeId::Okx.supports(&future));
    assert!(ExchangeId::Okx.supports(&InstrumentKind::Perpetual));
    assert!(ExchangeId::Okx.supports(&call));
    assert!(ExchangeId::Coinbase.supports(&InstrumentKind::Spot));
    assert!(!ExchangeId::Coinbase.supports(&future));
    assert!(!ExchangeId::Coinbase.supports(&InstrumentKind::Perpetual));
    assert!(!ExchangeId::Coinbase.supports(&call));
    assert!(!ExchangeId::Coincall.supports(&InstrumentKind::Spot));
    assert!(ExchangeId::Coincall.supports(&call));
    assert!(!ExchangeId::BinanceFuturesUsd.supports(&InstrumentKind::Spot));
    assert!(ExchangeId::BinanceFuturesUsd.supports(&InstrumentKind::Perpetual));
    assert!(ExchangeId::Kraken.supports_spot());
    assert!(!ExchangeId::Kraken.supports_futures());
    assert!(!ExchangeId::Kraken.supports_perpetuals());
    assert!(!ExchangeId::Kraken.supports_options());
}

#[test]
fn markets_are_named_with_dashes_in_uppercase() {
    let name = |kind| dashed_market_text(&Instrument::new("btc", "usd", kind));
    assert_eq!(name(InstrumentKind::Spot), "BTC-USD");
    assert_eq!(name(InstrumentKind::Perpetual), "BTC-USD-SWAP");
    assert_eq!(
        name(InstrumentKind::Future(FutureContract {
            expiry: Expiry { year: 2019, month: 10, day: 18, millis: 0 }
        })),
        "BTC-USD-191018"
    );
    assert_eq!(name(option(OptionKind::Call, 5500_00000000)), "BTC-USD-200103-5500-C");
    assert_eq!(name(option(OptionKind::Put, 50000000)), "BTC-USD-200103-0.5-P");
}

#[test]
fn okx_names_channels_and_markets() {
    let instrument = || Instrument::new("eth", "usdt", InstrumentKind::Spot);
    let trades = Subscription::new(Okx, instrument(), PublicTrades);
    let channel: OkxChannel = trades.id();
    let market: OkxMarket = trades.id();
    assert_eq!(channel, OkxChannel("trades"));
    assert_eq!(market, OkxMarket("ETH-USDT".to_string()));
    assert_eq!(channel.as_ref(), "trades");
    assert_eq!(market.as_ref(), "ETH-USDT");

    let channel: OkxChannel = Subscription::new(Okx, instrument(), OrderBooksL1).id();
    assert_eq!(channel.as_ref(), "tickers");
    let channel: OkxChannel = Subscription::new(Okx, instrument(), MarkPrices).id();
    assert_eq!(channel.as_ref(), "mark-price");
    let channel: OkxChannel = Subscription::new(Okx, instrument(), OptionSummaries).id();
    assert_eq!(channel.as_ref(), "opt-summary");
    let channel: OkxChannel = Subscription::new(Okx, instrument(), Balances).id();
    assert_eq!(channel.as_ref(), "balance_and_position");
    assert_eq!(OkxChannel::trades().0, "trades");
    assert_eq!(OkxChannel::order_book_l1().0, "tickers");
    assert_eq!(OkxChannel::mark_price().0, "mark-price");
    assert_eq!(OkxChannel::option_summary().0, "opt-summary");
    assert_eq!(OkxChannel::balance().0, "balance_and_position");
}

#[test]
fn coincall_names_channels_and_markets() {
    let instrument = || Instrument::new("btc", "usd", option(OptionKind::Call, 27000_00000000));
    let trades = Subscription::new(Coincall, instrument(), PublicTrades);
    let channel: CoincallChannel = trades.id();
    let market: CoincallMarket = trades.id();
    assert_eq!(channel.as_ref(), "trades");
    assert_eq!(market.as_ref(), "BTC-USD-200103-27000-C");
    let channel: CoincallChannel = Subscription::new(Coincall, instrument(), OrderBooksL1).id();
    assert_eq!(channel.as_ref(), "tickers");
    let channel: CoincallChannel = Subscription::new(Coincall, instrument(), MarkPrices).id();
    assert_eq!(channel.as_ref(), "mark-price");
    let channel: CoincallChannel = Subscription::new(Coincall, instrument(), OptionSummaries).id();
    assert_eq!(channel.as_ref(), "opt-summary");
}

#[test]
fn coinbase_names_channels_and_markets() {
    let trades = Subscription::from((Coinbase, "btc", "usd", InstrumentKind::Spot, PublicTrades));
    let channel: CoinbaseChannel = trades.id();
    let market: CoinbaseMarket = trades.id();
    assert_eq!(channel.as_ref(), "matches");
    assert_eq!(market.as_ref(), "BTC-USD");
}

#[test]
fn exchange_sub_has_the_key_of_channel_and_market() {
    let subscription = Subscription::from((Okx, "btc", "usdt", InstrumentKind::Spot, PublicTrades));
    let sub: ExchangeSub<OkxChannel, OkxMarket> = ExchangeSub::new(&subscription);
    assert_eq!(sub.channel.as_ref(), "trades");
    assert_eq!(sub.market.as_ref(), "BTC-USDT");
    assert_eq!(sub.id().as_ref(), "trades|BTC-USDT");
}

#[test]
fn okx_connector_states_its_addresses_and_keepalive() {
    assert_eq!(Okx::id(), ExchangeId::Okx);
    assert_eq!(Okx::url().unwrap().as_str(), "wss://wsaws.okx.com:8443/ws/v5/public");
    assert_eq!(Okx::url().unwrap().path_str(), "/ws/v5/public");
    assert_eq!(Okx::private_url().unwrap().as_str(), "wss://wsaws.okx.com:8443/ws/v5/private");
    assert!(Okx::login());
    let ping = Okx::ping_interval().unwrap();
    assert_eq!(ping.interval, 29);
    assert_eq!(text(&ping.ping), "ping");
    assert_eq!(Okx::subscription_timeout(), DEFAULT_SUBSCRIPTION_TIMEOUT);
    assert_eq!(DEFAULT_SUBSCRIPTION_TIMEOUT, 10_000);
}

#[test]
fn coincall_connector_states_its_address_and_keepalive() {
    assert_eq!(Coincall::id(), ExchangeId::Coincall);
    assert_eq!(Coincall::url().unwrap().as_str(), "wss://ws.coincall.com/options");
    assert_eq!(Coincall::private_url().unwrap().as_str(), "wss://ws.coincall.com/options");
    assert!(!Coincall::login());
    let ping = Coincall::ping_interval().unwrap();
    assert_eq!(ping.interval, 29);
    assert_eq!(text(&ping.ping), "{\"action\":\"heartbeat\"}");
    let heartbeat: serde_json::Value = serde_json::from_str(text(&ping.ping)).unwrap();
    assert_eq!(heartbeat["action"], "heartbeat");
}

#[test]
fn coinbase_connector_states_its_address() {
    assert_eq!(Coinbase::id(), ExchangeId::Coinbase);
    assert_eq!(Coinbase::url().unwrap().as_str(), "wss://ws-feed.exchange.coinbase.com");
    assert!(!Coinbase::login());
    assert!(Coinbase::ping_interval().is_none());
}

#[test]
fn okx_requests_are_one_frame_for_all() {
    let subs = vec![
        ExchangeSub { channel: OkxChannel("trades"), market: OkxMarket("BTC-USDT".to_string()) },
        ExchangeSub { channel: OkxChannel("trades"), market: OkxMarket("ETH-USDT".to_string()) },
    ];
    let requests = Okx::requests(subs);
    assert_eq!(requests.len(), 1);
    assert_eq!(
        text(&requests[0]),
        "{\"args\":[{\"channel\":\"trades\",\"instId\":\"BTC-USDT\"},{\"channel\":\"trades\",\"instId\":\"ETH-USDT\"}],\"op\":\"subscribe\"}"
    );
    let value: serde_json::Value = serde_json::from_str(text(&requests[0])).unwrap();
    assert_eq!(value["op"], "subscribe");
    assert_eq!(value["args"].as_array().unwrap().len(), 2);
    assert_eq!(value["args"][1]["channel"], "trades");
    assert_eq!(value["args"][1]["instId"], "ETH-USDT");
}

#[test]
fn okx_requests_for_nothing_are_an_empty_frame() {
    let requests = Okx::requests(vec![]);
    assert_eq!(requests.len(), 1);
    assert_eq!(text(&requests[0]), "{\"args\":[],\"op\":\"subscribe\"}");
}

#[test]
fn requests_escape_what_json_asks_for() {
    let subs = vec![ExchangeSub {
        channel: OkxChannel("a\"b\\c"),
        market: OkxMarket("line\nbreak\ttab\u{1}é".to_string()),
    }];
    let requests = Okx::requests(subs);
    assert_eq!(
        text(&requests[0]),
        "{\"args\":[{\"channel\":\"a\\\"b\\\\c\",\"instId\":\"line\\nbreak\\ttab\\u0001é\"}],\"op\":\"subscribe\"}"
    );
    let value: serde_json::Value = serde_json::from_str(text(&requests[0])).unwrap();
    assert_eq!(value["args"][0]["channel"], "a\"b\\c");
    assert_eq!(value["args"][0]["instId"], "line\nbreak\ttab\u{1}é");
}

#[test]
fn coincall_requests_are_one_frame_for_all() {
    let subs = vec![ExchangeSub {
        channel: CoincallChannel("trades"),
        market: CoincallMarket("BTC-USD-200103-27000-C".to_string()),
    }];
    let requests = Coincall::requests(subs);
    assert_eq!(requests.len(), 1);
    assert_eq!(
        text(&requests[0]),
        "{\"action\":\"subscribe\",\"args\":[{\"channel\":\"trades\",\"instId\":\"BTC-USD-200103-27000-C\"}]}"
    );
    let value: serde_json::Value = serde_json::from_str(text(&requests[0])).unwrap();
    assert_eq!(value["action"], "subscribe");
    assert_eq!(value["args"][0]["instId"], "BTC-USD-200103-27000-C");
}

#[test]
fn coinbase_requests_are_one_frame_each() {
    let subs = vec![
        ExchangeSub { channel: CoinbaseChannel("matches"), market: CoinbaseMarket("BTC-USD".to_string()) },
        ExchangeSub { channel: CoinbaseChannel("matches"), market: CoinbaseMarket("ETH-USD".to_string()) },
    ];
    let requests = Coinbase::requests(subs);
    assert_eq!(requests.len(), 2);
    assert_eq!(
        text(&requests[0]),
        "{\"channels\":[\"matches\"],\"product_ids\":[\"BTC-USD\"],\"type\":\"subscribe\"}"
    );
    let value: serde_json::Value = serde_json::from_str(text(&requests[1])).unwrap();
    assert_eq!(value["type"], "subscribe");
    assert_eq!(value["product_ids"][0], "ETH-USD");
    assert_eq!(value["channels"][0], "matches");
}

#[test]
fn mapper_makes_frames_and_instrument_map() {
    let subscriptions = vec![
        Subscription::from((Okx, "btc", "usdt", InstrumentKind::Spot, PublicTrades)),
        Subscription::from((Okx, "eth", "usdt", InstrumentKind::Perpetual, PublicTrades)),
    ];
    let meta = WebSocketSubMapper::map(&subscriptions);
    assert_eq!(meta.subscriptions.len(), 1);
    assert_eq!(
        text(&meta.subscriptions[0]),
        "{\"args\":[{\"channel\":\"trades\",\"instId\":\"BTC-USDT\"},{\"channel\":\"trades\",\"instId\":\"ETH-USDT-SWAP\"}],\"op\":\"subscribe\"}"
    );
    assert_eq!(meta.instrument_map.len(), 2);
    assert_eq!(Okx::expected_responses(&meta.instrument_map), 2);
    let found = meta.instrument_map.find(&SubscriptionId("trades|ETH-USDT-SWAP".to_string())).unwrap();
    assert_eq!(found.base.as_str(), "eth");
    assert_eq!(found.quote.as_str(), "usdt");
    assert_eq!(found.kind, InstrumentKind::Perpetual);
    match meta.instrument_map.find(&SubscriptionId("trades|XRP-USDT".to_string())) {
        Err(SocketError::Unidentifiable(id)) => assert_eq!(id.as_ref(), "trades|XRP-USDT"),
        other => panic!("unexpected outcome: {other:?}"),
    }
}

#[test]
fn instrument_map_replaces_what_stands_under_an_identifier() {
    let mut map = InstrumentMap::new();
    assert_eq!(map.len(), 0);
    map.insert(SubscriptionId("a|B".to_string()), Instrument::new("a", "b", InstrumentKind::Spot));
    map.insert(SubscriptionId("c|D".to_string()), Instrument::new("c", "d", InstrumentKind::Spot));
    assert_eq!(map.len(), 2);
    map.insert(SubscriptionId("a|B".to_string()), Instrument::new("x", "y", InstrumentKind::Perpetual));
    assert_eq!(map.len(), 2);
    let found = map.find(&SubscriptionId("a|B".to_string())).unwrap();
    assert_eq!(found.base.as_str(), "x");
    assert_eq!(found.kind, InstrumentKind::Perpetual);
    let other = map.find(&SubscriptionId("c|D".to_string())).unwrap();
    assert_eq!(other.base.as_str(), "c");
    assert!(map.find(&SubscriptionId("e|F".to_string())).is_err());
}

#[test]
fn okx_messages_are_identified_by_what_their_channel_asks_for() {
    let arg = |channel| OkxArg {
        channel,
        inst_id: Some("BTC-USDT"),
        inst_family: Some("BTC-USD"),
        uid: Some("77982378738415879"),
    };
    let id = |channel| arg(channel).subscription_id().unwrap().0;
    assert_eq!(id("trades"), "trades|BTC-USDT");
    assert_eq!(id("tickers"), "tickers|BTC-USDT");
    assert_eq!(id("mark-price"), "mark-price|BTC-USDT");
    assert_eq!(id("opt-summary"), "opt-summary|BTC-USD");
    assert_eq!(id("balance_and_position"), "balance_and_position|77982378738415879");
    assert_eq!(id("account"), "account|77982378738415879");
    assert_eq!(id("positions"), "positions|77982378738415879");
}

#[test]
fn okx_messages_that_lack_their_subject_have_no_identifier() {
    let without = |channel| OkxArg { channel, inst_id: None, inst_family: None, uid: None };
    assert!(without("trades").subscription_id().is_none());
    assert!(without("opt-summary").subscription_id().is_none());
    assert!(without("account").subscription_id().is_none());
    let only_instrument =
        OkxArg { channel: "positions", inst_id: Some("BTC-USDT"), inst_family: None, uid: None };
    assert!(only_instrument.subscription_id().is_none());
    let only_uid = OkxArg { channel: "trades", inst_id: None, inst_family: None, uid: Some("1") };
    assert!(only_uid.subscription_id().is_none());
}

#[test]
fn okx_answers_are_confirmations_or_refusals() {
    assert_eq!(OkxSubResponse::Subscribed.validate().unwrap(), OkxSubResponse::Subscribed);
    let refusal = OkxSubResponse::Error {
        code: "60012".to_string(),
        message: "Invalid request".to_string(),
    };
    match refusal.validate() {
        Err(SocketError::Subscribe(reason)) => assert_eq!(
            reason,
            "received failure subscription response code: 60012 with message: Invalid request"
        ),
        other => panic!("unexpected outcome: {other:?}"),
    }
}

#[test]
fn an_address_that_does_not_parse_is_an_error() {
    assert!(matches!(
        barter_data::exchange::address("no address at all"),
        Err(SocketError::UrlParse(_))
    ));
    let parsed = barter_data::exchange::address("wss://ws.coincall.com/options?a=b").unwrap();
    assert_eq!(parsed.path_str(), "/options");
    assert_eq!(parsed.query_str(), Some("a=b"));
}

#[test]
fn instruments_that_an_exchange_names_alike_are_asked_for_alike() {
    let morning = InstrumentKind::Future(FutureContract {
        expiry: Expiry { year: 2024, month: 3, day: 29, millis: 0 },
    });
    let evening = InstrumentKind::Future(FutureContract {
        expiry: Expiry { year: 2024, month: 3, day: 29, millis: 72_000_000 },
    });
    let subscriptions = vec![
        Subscription::from((Okx, "btc", "usd", morning, PublicTrades)),
        Subscription::from((Okx, "btc", "usd", evening, PublicTrades)),
    ];
    let meta = WebSocketSubMapper::map(&subscriptions);
    assert_eq!(
        text(&meta.subscriptions[0]),
        "{\"args\":[{\"channel\":\"trades\",\"instId\":\"BTC-USD-240329\"},{\"channel\":\"trades\",\"instId\":\"BTC-USD-240329\"}],\"op\":\"subscribe\"}"
    );
    assert_eq!(meta.instrument_map.len(), 1);
    let found = meta.instrument_map.find(&SubscriptionId("trades|BTC-USD-240329".to_string())).unwrap();
    assert_eq!(found.kind, evening);
}

#[test]
fn okx_answers_to_a_login_are_acknowledgements_or_refusals() {
    assert!(matches!(OkxLoginResponse::LoggedIn.answer(), LoginAnswer::Acknowledged));
    let refusal = OkxLoginResponse::Error {
        code: "60009".to_string(),
        message: "Login failed.".to_string(),
    };
    match refusal.answer() {
        LoginAnswer::Refused(SocketError::Subscribe(reason)) => assert_eq!(
            reason,
            "received failure login response code: 60009 with message: Login failed."
        ),
        other => panic!("unexpected answer: {other:?}"),
    }
}

#[test]
fn identifiers_are_channel_bar_market() {
    assert_eq!(subscription_id("spot.trades", "GT_USDT").as_ref(), "spot.trades|GT_USDT");
    assert_eq!(subscription_id("", "").as_ref(), "|");
    assert_eq!(subscription_id("trades", "BTC-USDT").0, "trades|BTC-USDT");
}
