//! Okx.

use crate::error::SocketError;
use crate::exchange::okx::channel::OkxChannel;
use crate::exchange::okx::market::OkxMarket;
use crate::exchange::{
    address, subscribe_arg_texts, subscribe_args, Connector, ExchangeId, ExchangeSub,
    PingInterval, StreamSelector,
};
use crate::json::{join, joined};
use crate::subscription::balance::Balances;
use crate::subscription::book::OrderBooksL1;
use crate::subscription::mark_price::MarkPrices;
use crate::subscription::option_summary::OptionSummaries;
use crate::subscription::pong::Pongs;
use crate::subscription::trade::PublicTrades;
use crate::subscription::InstrumentMap;
use crate::web::{RequestUrl, WsMessage};
use vstd::prelude::*;
use vstd::string::*;

pub mod channel;
pub mod market;
pub mod message;
pub mod subscription;

verus! {

/// The address of the public feeds of Okx.
pub const BASE_URL_OKX: &'static str = "wss://wsaws.okx.com:8443/ws/v5/public";

/// The address of the feeds of Okx for which a login is needed.
pub const PRIVATE_URL_OKX: &'static str = "wss://wsaws.okx.com:8443/ws/v5/private";

/// The seconds between two keepalive frames to Okx.
pub const PING_INTERVAL_OKX: u64 = 29;

/// Okx.
#[derive(Clone, Copy, Debug, Default, PartialEq, Eq, Hash, Structural)]
pub struct Okx;

/// The request that subscribes to all the given channels and markets at
/// once.
pub open spec fn subscribe_frame(subs: Seq<(Seq<char>, Seq<char>)>) -> Seq<char> {
    "{\"args\":["@ + joined(subscribe_args(subs)) + "],\"op\":\"subscribe\"}"@
}

impl Connector for Okx {
    type Channel = OkxChannel;

    type Market = OkxMarket;

    open spec fn exchange() -> ExchangeId {
        ExchangeId::Okx
    }

    open spec fn public_address() -> Seq<char> {
        BASE_URL_OKX@
    }

    open spec fn private_address() -> Seq<char> {
        PRIVATE_URL_OKX@
    }

    open spec fn has_login() -> bool {
        true
    }

    open spec fn keepalive() -> Option<(nat, Seq<char>)> {
        Some((PING_INTERVAL_OKX as nat, "ping"@))
    }

    open spec fn frames(subs: Seq<(Seq<char>, Seq<char>)>) -> Seq<Seq<char>> {
        seq![subscribe_frame(subs)]
    }

    open spec fn confirmations(requested: nat) -> nat {
        requested
    }

    fn id() -> (id: ExchangeId) {
        ExchangeId::Okx
    }

    fn url() -> (url: Result<RequestUrl, SocketError>) {
        address(BASE_URL_OKX)
    }

    fn private_url() -> (url: Result<RequestUrl, SocketError>) {
        address(PRIVATE_URL_OKX)
    }

    fn login() -> (wanted: bool) {
        true
    }

    fn ping_interval() -> (ping: Option<PingInterval>) {
        Some(PingInterval { interval: PING_INTERVAL_OKX, ping: WsMessage::text("ping") })
    }

    fn requests(exchange_subs: Vec<ExchangeSub<OkxChannel, OkxMarket>>) -> (requests: Vec<
        WsMessage,
    >) {
        let args = subscribe_arg_texts(&exchange_subs);
        let mut frame = String::from_str("{\"args\":[");
        frame.append(join(&args).as_str());
        frame.append("],\"op\":\"subscribe\"}");
        let mut requests: Vec<WsMessage> = Vec::new();
        requests.push(WsMessage::Text(frame));
        requests
    }

    fn expected_responses(map: &InstrumentMap) -> (expected: usize) {
        map.len()
    }
}

impl StreamSelector<PublicTrades> for Okx {

}

impl StreamSelector<OrderBooksL1> for Okx {

}

impl StreamSelector<MarkPrices> for Okx {

}

impl StreamSelector<OptionSummaries> for Okx {

}

impl StreamSelector<Balances> for Okx {

}

impl StreamSelector<Pongs> for Okx {

}

} // verus!
