//! Coinbase.

use crate::error::SocketError;
use crate::exchange::{
    address, Connector, ExchangeId, ExchangeSub, PingInterval, StreamSelector,
};
use crate::json::{json_string, quoted};
use crate::subscription::trade::PublicTrades;
use crate::subscription::{InstrumentMap, Subscription};
use crate::text::{to_uppercase, uppercase};
use crate::web::{RequestUrl, WsMessage};
use crate::{Identifier, Named};
use vstd::prelude::*;
use vstd::string::*;

verus! {

/// The address of the feeds of Coinbase.
pub const BASE_URL_COINBASE: &'static str = "wss://ws-feed.exchange.coinbase.com";

/// Coinbase.
#[derive(Clone, Copy, Debug, Default, PartialEq, Eq, Hash, Structural)]
pub struct Coinbase;

/// The name of a channel of Coinbase.
#[derive(Clone, Copy, Debug, PartialEq, Eq)]
pub struct CoinbaseChannel(pub &'static str);

impl CoinbaseChannel {
    /// Trades as they happen.
    pub fn trades() -> (channel: Self)
        ensures
            channel.name() == "matches"@,
    {
        CoinbaseChannel("matches")
    }
}

impl Named for CoinbaseChannel {
    open spec fn name(&self) -> Seq<char> {
        self.0@
    }

    fn as_ref(&self) -> (text: &str) {
        self.0
    }
}

/// The name of a market of Coinbase, such as `BTC-USD`.
#[derive(Clone, Debug, PartialEq, Eq)]
pub struct CoinbaseMarket(pub String);

impl Named for CoinbaseMarket {
    open spec fn name(&self) -> Seq<char> {
        self.0@
    }

    fn as_ref(&self) -> (text: &str) {
        self.0.as_str()
    }
}

impl Identifier<CoinbaseChannel> for Subscription<Coinbase, PublicTrades> {
    open spec fn id_name(&self) -> Seq<char> {
        "matches"@
    }

    fn id(&self) -> (id: CoinbaseChannel) {
        CoinbaseChannel::trades()
    }
}

impl<Kind> Identifier<CoinbaseMarket> for Subscription<Coinbase, Kind> {
    open spec fn id_name(&self) -> Seq<char> {
        uppercase(self.instrument@.0 + seq!['-'] + self.instrument@.1)
    }

    fn id(&self) -> (id: CoinbaseMarket) {
        let mut name = String::from_str(self.instrument.base.as_str());
        name.append("-");
        name.append(self.instrument.quote.as_str());
        proof {
            reveal_strlit("-");
            assert(name@ =~= self.instrument@.0 + seq!['-'] + self.instrument@.1);
        }
        CoinbaseMarket(to_uppercase(name.as_str()))
    }
}

/// The request that subscribes to one market on one channel.
pub open spec fn subscribe_frame(sub: (Seq<char>, Seq<char>)) -> Seq<char> {
    "{\"channels\":["@ + json_string(sub.0) + "],\"product_ids\":["@ + json_string(sub.1)
        + "],\"type\":\"subscribe\"}"@
}

impl Connector for Coinbase {
    type Channel = CoinbaseChannel;

    type Market = CoinbaseMarket;

    open spec fn exchange() -> ExchangeId {
        ExchangeId::Coinbase
    }

    open spec fn public_address() -> Seq<char> {
        BASE_URL_COINBASE@
    }

    open spec fn private_address() -> Seq<char> {
        BASE_URL_COINBASE@
    }

    open spec fn has_login() -> bool {
        false
    }

    open spec fn keepalive() -> Option<(nat, Seq<char>)> {
        None
    }

    open spec fn frames(subs: Seq<(Seq<char>, Seq<char>)>) -> Seq<Seq<char>> {
        Seq::new(subs.len(), |i: int| subscribe_frame(subs[i]))
    }

    open spec fn confirmations(requested: nat) -> nat {
        requested
    }

    fn id() -> (id: ExchangeId) {
        ExchangeId::Coinbase
    }

    fn url() -> (url: Result<RequestUrl, SocketError>) {
        address(BASE_URL_COINBASE)
    }

    fn private_url() -> (url: Result<RequestUrl, SocketError>) {
        address(BASE_URL_COINBASE)
    }

    fn login() -> (wanted: bool) {
        false
    }

    fn ping_interval() -> (ping: Option<PingInterval>) {
        None
    }

    fn requests(exchange_subs: Vec<ExchangeSub<CoinbaseChannel, CoinbaseMarket>>) -> (requests:
        Vec<WsMessage>) {
        let mut requests: Vec<WsMessage> = Vec::new();
        let mut i: usize = 0;
        while i < exchange_subs.len()
            invariant
                i <= exchange_subs@.len(),
                requests@.len() == i,
                forall|j: int|
                    0 <= j < i ==> (#[trigger] requests@[j]).is_text(
                        subscribe_frame(exchange_subs@[j].names()),
                    ),
            decreases exchange_subs@.len() - i,
        {
            let mut frame = String::from_str("{\"channels\":[");
            frame.append(quoted(exchange_subs[i].channel.as_ref()).as_str());
            frame.append("],\"product_ids\":[");
            frame.append(quoted(exchange_subs[i].market.as_ref()).as_str());
            frame.append("],\"type\":\"subscribe\"}");
            requests.push(WsMessage::Text(frame));
            i = i + 1;
        }
        requests
    }

    fn expected_responses(map: &InstrumentMap) -> (expected: usize) {
        map.len()
    }
}

impl StreamSelector<PublicTrades> for Coinbase {

}

} // verus!
