//! Coincall.

use crate::error::SocketError;
use crate::exchange::coincall::channel::CoincallChannel;
use crate::exchange::coincall::market::CoincallMarket;
use crate::exchange::{
    address, subscribe_arg_texts, subscribe_args, Connector, ExchangeId, ExchangeSub,
    PingInterval, StreamSelector,
};
use crate::json::{join, joined};
use crate::subscription::trade::PublicTrades;
use crate::subscription::InstrumentMap;
use crate::web::{RequestUrl, WsMessage};
use vstd::prelude::*;
use vstd::string::*;

pub mod channel;
pub mod market;

verus! {

/// The address of the feeds of Coincall.
pub const BASE_URL_COINCALL: &'static str = "wss://ws.coincall.com/options";

/// The seconds between two keepalive frames to Coincall.
pub const PING_INTERVAL_COINCALL: u64 = 29;

/// Coincall.
#[derive(Clone, Copy, Debug, Default, PartialEq, Eq, Hash, Structural)]
pub struct Coincall;

/// The request that subscribes to all the given channels and markets at
/// once.
pub open spec fn subscribe_frame(subs: Seq<(Seq<char>, Seq<char>)>) -> Seq<char> {
    "{\"action\":\"subscribe\",\"args\":["@ + joined(subscribe_args(subs)) + "]}"@
}

impl Connector for Coincall {
    type Channel = CoincallChannel;

    type Market = CoincallMarket;

    open spec fn exchange() -> ExchangeId {
        ExchangeId::Coincall
    }

    open spec fn public_address() -> Seq<char> {
        BASE_URL_COINCALL@
    }

    open spec fn private_address() -> Seq<char> {
        BASE_URL_COINCALL@
    }

    open spec fn has_login() -> bool {
        false
    }

    open spec fn keepalive() -> Option<(nat, Seq<char>)> {
        Some((PING_INTERVAL_COINCALL as nat, "{\"action\":\"heartbeat\"}"@))
    }

    open spec fn frames(subs: Seq<(Seq<char>, Seq<char>)>) -> Seq<Seq<char>> {
        seq![subscribe_frame(subs)]
    }

    open spec fn confirmations(requested: nat) -> nat {
        requested
    }

    fn id() -> (id: ExchangeId) {
        ExchangeId::Coincall
    }

    fn url() -> (url: Result<RequestUrl, SocketError>) {
        address(BASE_URL_COINCALL)
    }

    fn private_url() -> (url: Result<RequestUrl, SocketError>) {
        address(BASE_URL_COINCALL)
    }

    fn login() -> (wanted: bool) {
        false
    }

    fn ping_interval() -> (ping: Option<PingInterval>) {
        Some(
            PingInterval {
                interval: PING_INTERVAL_COINCALL,
                ping: WsMessage::text("{\"action\":\"heartbeat\"}"),
            },
        )
    }

    fn requests(exchange_subs: Vec<ExchangeSub<CoincallChannel, CoincallMarket>>) -> (requests:
        Vec<WsMessage>) {
        let args = subscribe_arg_texts(&exchange_subs);
        let mut frame = String::from_str("{\"action\":\"subscribe\",\"args\":[");
        frame.append(join(&args).as_str());
        frame.append("]}");
        let mut requests: Vec<WsMessage> = Vec::new();
        requests.push(WsMessage::Text(frame));
        requests
    }

    fn expected_responses(map: &InstrumentMap) -> (expected: usize) {
        map.len()
    }
}

impl StreamSelector<PublicTrades> for Coincall {

}

} // verus!
