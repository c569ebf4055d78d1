//! Exchanges: their identities, what each offers, and the capability that
//! describes how to talk to one.

use crate::error::SocketError;
use crate::instrument::{
    date_code, strike_numeral, strike_text, Instrument, InstrumentKind, OptionKind,
};
use crate::json::{json_string, quoted, texts};
use crate::text::{to_uppercase, uppercase};
use crate::subscription::{InstrumentMap, SubKind, Subscription, SubscriptionId};
use crate::web::{are_texts, url_parts, RequestUrl, WsMessage};
use crate::{Identifier, Named};
use vstd::prelude::*;
use vstd::string::*;

pub mod coinbase;
pub mod coincall;
pub mod okx;

verus! {

/// The exchanges that this library can name.
#[derive(Clone, Copy, Debug, PartialEq, Eq, Hash, Structural)]
pub enum ExchangeId {
    BinanceFuturesUsd,
    BinanceSpot,
    Bitfinex,
    Coinbase,
    Coincall,
    GateioSpot,
    Kraken,
    Okx,
}

/// True when the exchange lists spot markets.
pub open spec fn offers_spot(exchange: ExchangeId) -> bool {
    exchange != ExchangeId::BinanceFuturesUsd && exchange != ExchangeId::Coincall
}

/// True when the exchange lists futures with an expiry.
pub open spec fn offers_futures(exchange: ExchangeId) -> bool {
    exchange == ExchangeId::Okx
}

/// True when the exchange lists perpetual futures.
pub open spec fn offers_perpetuals(exchange: ExchangeId) -> bool {
    exchange == ExchangeId::BinanceFuturesUsd || exchange == ExchangeId::Okx
}

/// True when the exchange lists options.
pub open spec fn offers_options(exchange: ExchangeId) -> bool {
    exchange == ExchangeId::Okx || exchange == ExchangeId::Coincall
}

/// True when the exchange lists instruments of the given kind.
pub open spec fn supported(exchange: ExchangeId, kind: InstrumentKind) -> bool {
    match kind {
        InstrumentKind::Spot => offers_spot(exchange),
        InstrumentKind::Future(_) => offers_futures(exchange),
        InstrumentKind::Perpetual => offers_perpetuals(exchange),
        InstrumentKind::Option(_) => offers_options(exchange),
    }
}

impl ExchangeId {
    /// The exchange's name in lowercase, words joined by underscores.
    pub fn as_str(&self) -> (name: &'static str)
        ensures
            name@ == match *self {
                ExchangeId::BinanceFuturesUsd => "binance_futures_usd"@,
                ExchangeId::BinanceSpot => "binance_spot"@,
                ExchangeId::Bitfinex => "bitfinex"@,
                ExchangeId::Coinbase => "coinbase"@,
                ExchangeId::Coincall => "coincall"@,
                ExchangeId::GateioSpot => "gateio_spot"@,
                ExchangeId::Kraken => "kraken"@,
                ExchangeId::Okx => "okx"@,
            },
    {
        match self {
            ExchangeId::BinanceFuturesUsd => "binance_futures_usd",
            ExchangeId::BinanceSpot => "binance_spot",
            ExchangeId::Bitfinex => "bitfinex",
            ExchangeId::Coinbase => "coinbase",
            ExchangeId::Coincall => "coincall",
            ExchangeId::GateioSpot => "gateio_spot",
            ExchangeId::Kraken => "kraken",
            ExchangeId::Okx => "okx",
        }
    }

    /// True when the exchange lists spot markets.
    pub fn supports_spot(&self) -> (offered: bool)
        ensures
            offered == offers_spot(*self),
    {
        match self {
            ExchangeId::BinanceFuturesUsd => false,
            ExchangeId::Coincall => false,
            _ => true,
        }
    }

    /// True when the exchange lists futures with an expiry.
    pub fn supports_futures(&self) -> (offered: bool)
        ensures
            offered == offers_futures(*self),
    {
        match self {
            ExchangeId::Okx => true,
            _ => false,
        }
    }

    /// True when the exchange lists perpetual futures.
    pub fn supports_perpetuals(&self) -> (offered: bool)
        ensures
            offered == offers_perpetuals(*self),
    {
        match self {
            ExchangeId::BinanceFuturesUsd => true,
            ExchangeId::Okx => true,
            _ => false,
        }
    }

    /// True when the exchange lists options.
    pub fn supports_options(&self) -> (offered: bool)
        ensures
            offered == offers_options(*self),
    {
        match self {
            ExchangeId::Okx => true,
            ExchangeId::Coincall => true,
            _ => false,
        }
    }

    /// True when the exchange lists instruments of the given kind.
    pub fn supports(&self, kind: &InstrumentKind) -> (offered: bool)
        ensures
            offered == supported(*self, *kind),
    {
        match kind {
            InstrumentKind::Spot => self.supports_spot(),
            InstrumentKind::Future(_) => self.supports_futures(),
            InstrumentKind::Perpetual => self.supports_perpetuals(),
            InstrumentKind::Option(_) => self.supports_options(),
        }
    }
}

/// The identifier under which messages about a market on a channel arrive:
/// the channel's name, a bar, and the market's name.
pub open spec fn subscription_key(channel: Seq<char>, market: Seq<char>) -> Seq<char> {
    channel + seq!['|'] + market
}

/// Makes the identifier under which messages about a market on a channel
/// arrive.
pub fn subscription_id(channel: &str, market: &str) -> (id: SubscriptionId)
    ensures
        id@ == subscription_key(channel@, market@),
{
    let mut text = String::from_str(channel);
    text.append("|");
    text.append(market);
    proof {
        reveal_strlit("|");
        assert(text@ =~= subscription_key(channel@, market@));
    }
    SubscriptionId(text)
}

/// The name of the channel that a subscription asks for.
pub open spec fn channel_name<Exchange, Kind>(
    subscription: &Subscription<Exchange, Kind>,
) -> Seq<char> where
    Exchange: Connector,
    Subscription<Exchange, Kind>: Identifier<Exchange::Channel>,
 {
    <Subscription<Exchange, Kind> as Identifier<Exchange::Channel>>::id_name(subscription)
}

/// The name of the market that a subscription asks for.
pub open spec fn market_name<Exchange, Kind>(
    subscription: &Subscription<Exchange, Kind>,
) -> Seq<char> where
    Exchange: Connector,
    Subscription<Exchange, Kind>: Identifier<Exchange::Market>,
 {
    <Subscription<Exchange, Kind> as Identifier<Exchange::Market>>::id_name(subscription)
}

/// What follows base and quote in the dashed name of a market: nothing for
/// spot, the date of expiry for a future, `SWAP` for a perpetual, and for an
/// option the date of expiry, the strike and `C` or `P`.
pub open spec fn contract_suffix(kind: InstrumentKind) -> Seq<char> {
    match kind {
        InstrumentKind::Spot => Seq::<char>::empty(),
        InstrumentKind::Future(future) => seq!['-'] + date_code(future.expiry),
        InstrumentKind::Perpetual => seq!['-', 'S', 'W', 'A', 'P'],
        InstrumentKind::Option(option) => seq!['-'] + date_code(option.expiry) + seq!['-']
            + strike_numeral(option.strike as nat) + seq!['-'] + seq![
            match option.kind {
                OptionKind::Call => 'C',
                OptionKind::Put => 'P',
            },
        ],
    }
}

/// The dashed name of a market: base, quote and what tells the contract,
/// joined by dashes and put in uppercase, as in `BTC-USD-SWAP`.
pub open spec fn dashed_market(instrument: (Seq<char>, Seq<char>, InstrumentKind)) -> Seq<char> {
    uppercase(instrument.0 + seq!['-'] + instrument.1 + contract_suffix(instrument.2))
}

/// Makes the dashed name of an instrument's market.
pub fn dashed_market_text(instrument: &Instrument) -> (name: String)
    ensures
        name@ == dashed_market(instrument@),
{
    let mut name = String::from_str(instrument.base.as_str());
    name.append("-");
    name.append(instrument.quote.as_str());
    proof {
        reveal_strlit("-");
        reveal_strlit("-SWAP");
        reveal_strlit("C");
        reveal_strlit("P");
    }
    match &instrument.kind {
        InstrumentKind::Spot => {},
        InstrumentKind::Future(future) => {
            let code = future.expiry.code();
            name.append("-");
            name.append(code.as_str());
        },
        InstrumentKind::Perpetual => {
            name.append("-SWAP");
        },
        InstrumentKind::Option(option) => {
            let code = option.expiry.code();
            let strike = strike_text(option.strike);
            name.append("-");
            name.append(code.as_str());
            name.append("-");
            name.append(strike.as_str());
            name.append("-");
            match option.kind {
                OptionKind::Call => name.append("C"),
                OptionKind::Put => name.append("P"),
            }
        },
    }
    assert(name@ =~= instrument@.0 + seq!['-'] + instrument@.1 + contract_suffix(instrument@.2));
    to_uppercase(name.as_str())
}

/// A channel and a market as one exchange names them: what a request to
/// subscribe is made of.
#[derive(Debug)]
pub struct ExchangeSub<Channel, Market> {
    pub channel: Channel,
    pub market: Market,
}

impl<Channel: Named, Market: Named> ExchangeSub<Channel, Market> {
    /// The names of the channel and of the market.
    pub open spec fn names(&self) -> (Seq<char>, Seq<char>) {
        (self.channel.name(), self.market.name())
    }

    /// The channel and market that a subscription asks for.
    pub fn new<Exchange, Kind>(subscription: &Subscription<Exchange, Kind>) -> (sub: Self) where
        Exchange: Connector<Channel = Channel, Market = Market>,
        Subscription<Exchange, Kind>: Identifier<Channel> + Identifier<Market>,

        ensures
            sub.names() == (channel_name(subscription), market_name(subscription)),
    {
        ExchangeSub {
            channel: <Subscription<Exchange, Kind> as Identifier<Channel>>::id(subscription),
            market: <Subscription<Exchange, Kind> as Identifier<Market>>::id(subscription),
        }
    }

    /// The identifier under which messages about this market on this channel
    /// arrive.
    pub fn id(&self) -> (id: SubscriptionId)
        ensures
            id@ == subscription_key(self.channel.name(), self.market.name()),
    {
        subscription_id(self.channel.as_ref(), self.market.as_ref())
    }
}

/// The names of the channel and market of each of a run of requests.
pub open spec fn all_names<Channel: Named, Market: Named>(
    subs: Seq<ExchangeSub<Channel, Market>>,
) -> Seq<(Seq<char>, Seq<char>)> {
    Seq::new(subs.len(), |i: int| subs[i].names())
}

/// One entry of the `args` of a request to subscribe: an object that names
/// the channel and the market.
pub open spec fn subscribe_arg(sub: (Seq<char>, Seq<char>)) -> Seq<char> {
    "{\"channel\":"@ + json_string(sub.0) + ",\"instId\":"@ + json_string(sub.1) + "}"@
}

/// The entries of the `args` of a request to subscribe.
pub open spec fn subscribe_args(subs: Seq<(Seq<char>, Seq<char>)>) -> Seq<Seq<char>> {
    Seq::new(subs.len(), |i: int| subscribe_arg(subs[i]))
}

/// Writes the entries of the `args` of a request to subscribe.
pub fn subscribe_arg_texts<Channel: Named, Market: Named>(
    exchange_subs: &Vec<ExchangeSub<Channel, Market>>,
) -> (args: Vec<String>)
    ensures
        texts(args@) == subscribe_args(all_names(exchange_subs@)),
{
    let mut args: Vec<String> = Vec::new();
    let mut i: usize = 0;
    while i < exchange_subs.len()
        invariant
            i <= exchange_subs@.len(),
            args@.len() == i,
            forall|j: int|
                0 <= j < i ==> (#[trigger] args@[j])@ == subscribe_arg(exchange_subs@[j].names()),
        decreases exchange_subs@.len() - i,
    {
        let mut arg = String::from_str("{\"channel\":");
        arg.append(quoted(exchange_subs[i].channel.as_ref()).as_str());
        arg.append(",\"instId\":");
        arg.append(quoted(exchange_subs[i].market.as_ref()).as_str());
        arg.append("}");
        args.push(arg);
        i = i + 1;
    }
    assert(texts(args@) =~= subscribe_args(all_names(exchange_subs@)));
    args
}

/// How an exchange wants to hear that a connection is alive: a frame, sent
/// every `interval` seconds.
#[derive(Debug)]
pub struct PingInterval {
    pub interval: u64,
    pub ping: WsMessage,
}

/// What an address that an exchange states must come out as: the parsed
/// address where the text parses, else the error that says it did not.
pub open spec fn is_address(url: Result<RequestUrl, SocketError>, text: Seq<char>) -> bool {
    match url_parts(text) {
        Some(parts) => url matches Ok(url) && url.text() == text && url.path() == parts.0
            && url.query() == parts.1 && url.wf(),
        None => url matches Err(SocketError::UrlParse(_)),
    }
}

/// Parses the address that an exchange states.
pub fn address(text: &str) -> (url: Result<RequestUrl, SocketError>)
    ensures
        is_address(url, text@),
{
    match RequestUrl::parse(text) {
        Ok(url) => Ok(url),
        Err(error) => Err(SocketError::UrlParse(error)),
    }
}

/// How long to wait for an exchange to confirm subscriptions, in
/// milliseconds, where the exchange states nothing else.
pub const DEFAULT_SUBSCRIPTION_TIMEOUT: u64 = 10_000;

/// What this library must know of an exchange to subscribe to its feeds: who
/// it is, where it listens, how it is kept awake, and how requests to it are
/// framed.
pub trait Connector: Sized {
    /// The exchange's names for its channels.
    type Channel: Named;

    /// The exchange's names for its markets.
    type Market: Named;

    /// Which exchange this is.
    spec fn exchange() -> ExchangeId;

    /// The address of the public feeds.
    spec fn public_address() -> Seq<char>;

    /// The address of the feeds for which a login is needed.
    spec fn private_address() -> Seq<char>;

    /// True when subscribing to this exchange starts with a login wherever
    /// credentials are at hand.
    spec fn has_login() -> bool;

    /// The keepalive frame and the seconds between two of them, if the
    /// exchange wants any.
    spec fn keepalive() -> Option<(nat, Seq<char>)>;

    /// The texts of the frames that ask for the given channels and markets.
    spec fn frames(subs: Seq<(Seq<char>, Seq<char>)>) -> Seq<Seq<char>>;

    /// How many confirmations the exchange sends for the given requests.
    spec fn confirmations(requested: nat) -> nat;

    /// Which exchange this is.
    fn id() -> (id: ExchangeId)
        ensures
            id == Self::exchange(),
    ;

    /// The address of the public feeds.
    fn url() -> (url: Result<RequestUrl, SocketError>)
        ensures
            is_address(url, Self::public_address()),
    ;

    /// The address of the feeds for which a login is needed.
    fn private_url() -> (url: Result<RequestUrl, SocketError>)
        ensures
            is_address(url, Self::private_address()),
    ;

    /// True when subscribing to this exchange starts with a login wherever
    /// credentials are at hand.
    fn login() -> (wanted: bool)
        ensures
            wanted == Self::has_login(),
    ;

    /// The keepalive frame and the seconds between two of them, if the
    /// exchange wants any.
    fn ping_interval() -> (ping: Option<PingInterval>)
        ensures
            match Self::keepalive() {
                Some(keepalive) => ping matches Some(ping) && ping.interval == keepalive.0
                    && ping.ping.is_text(keepalive.1),
                None => ping.is_none(),
            },
    ;

    /// The frames that ask for the given channels and markets, in the order
    /// in which they are to be sent.
    fn requests(exchange_subs: Vec<ExchangeSub<Self::Channel, Self::Market>>) -> (requests: Vec<
        WsMessage,
    >)
        ensures
            are_texts(requests@, Self::frames(all_names(exchange_subs@))),
    ;

    /// How many confirmations to wait for after the requests for the given
    /// instruments were sent.
    fn expected_responses(map: &InstrumentMap) -> (expected: usize)
        ensures
            expected == Self::confirmations(map@.dom().len()),
    ;

    /// How long to wait for the confirmations, in milliseconds.
    fn subscription_timeout() -> (timeout: u64)
        ensures
            timeout == DEFAULT_SUBSCRIPTION_TIMEOUT,
    {
        DEFAULT_SUBSCRIPTION_TIMEOUT
    }
}

/// States that an exchange has a feed of events of the given kind.
pub trait StreamSelector<Kind: SubKind>: Connector {

}

} // verus!
