//! Normalised market events.

use crate::error::DataError;
use crate::exchange::ExchangeId;
use crate::instrument::Instrument;
use crate::model::Timestamp;
use crate::sequence::reversed;
use crate::subscription::account::Account;
use crate::subscription::balance::Balance;
use crate::subscription::book::{OrderBook, OrderBookL1};
use crate::subscription::candle::Candle;
use crate::subscription::greek::Greek;
use crate::subscription::liquidation::Liquidation;
use crate::subscription::mark_price::MarkPrice;
use crate::subscription::option_summary::OptionSummary;
use crate::subscription::pong::Pong;
use crate::subscription::position::Position;
use crate::subscription::trade::PublicTrade;
use vstd::prelude::*;

verus! {

/// An event on a market: what happened (`kind`), on which instrument of
/// which exchange, when the exchange says it happened and when it was
/// received here. Clocks differ: the time of reception may lie before the
/// time of the exchange.
#[derive(Debug)]
pub struct MarketEvent<T> {
    pub exchange_time: Timestamp,
    pub received_time: Timestamp,
    pub exchange: ExchangeId,
    pub instrument: Instrument,
    pub kind: T,
}

/// The events that one message of an exchange turned into, in the order of
/// the message, each an event or the error that stands in its place.
#[derive(Debug)]
pub struct MarketIter<T>(pub Vec<Result<MarketEvent<T>, DataError>>);

/// True when the result is the event that an item of a message makes: the
/// item's own time and payload, with the given time of reception, exchange
/// and instrument.
pub open spec fn is_event_of<T>(
    made: Result<MarketEvent<T>, DataError>,
    exchange: ExchangeId,
    instrument: Instrument,
    received_time: Timestamp,
    item: (Timestamp, T),
) -> bool {
    made matches Ok(event) && event.exchange_time == item.0 && event.received_time == received_time
        && event.exchange == exchange && event.instrument == instrument && event.kind == item.1
}

impl<T> From<(ExchangeId, Instrument, Timestamp, Vec<(Timestamp, T)>)> for MarketIter<T> {
    /// Turns the items of a message, each with its own time, into events on
    /// the given instrument of the given exchange, received at the given
    /// time: one event for each item, in the order of the items.
    fn from(input: (ExchangeId, Instrument, Timestamp, Vec<(Timestamp, T)>)) -> (events: Self)
        ensures
            events.0@.len() == input.3@.len(),
            forall|i: int|
                0 <= i < input.3@.len() ==> is_event_of(
                    #[trigger] events.0@[i],
                    input.0,
                    input.1,
                    input.2,
                    input.3@[i],
                ),
    {
        let exchange = input.0;
        let instrument = input.1;
        let received_time = input.2;
        let ghost all = input.3@;
        let mut stack = reversed(input.3);
        let mut events: Vec<Result<MarketEvent<T>, DataError>> = Vec::new();
        while stack.len() > 0
            invariant
                events@.len() + stack@.len() == all.len(),
                forall|j: int| 0 <= j < stack@.len() ==> stack@[j] == all[all.len() - 1 - j],
                forall|i: int|
                    0 <= i < events@.len() ==> is_event_of(
                        #[trigger] events@[i],
                        exchange,
                        instrument,
                        received_time,
                        all[i],
                    ),
            decreases stack@.len(),
        {
            let item = stack.pop().unwrap();
            events.push(
                Ok(
                    MarketEvent {
                        exchange_time: item.0,
                        received_time,
                        exchange,
                        instrument: instrument.clone(),
                        kind: item.1,
                    },
                ),
            );
        }
        MarketIter(events)
    }
}

impl<T> vstd::std_specs::convert::FromSpecImpl<(ExchangeId, Instrument, Timestamp, Vec<(Timestamp, T)>)> for MarketIter<T> {
    open spec fn obeys_from_spec() -> bool {
        false
    }

    open spec fn from_spec(input: (ExchangeId, Instrument, Timestamp, Vec<(Timestamp, T)>)) -> Self {
        arbitrary()
    }
}

/// The payload of an event of any kind: what the events of streams of
/// several kinds become when the streams are merged into one.
#[derive(Debug)]
pub enum DataKind {
    Pong(Pong),
    Trade(PublicTrade),
    OrderBookL1(OrderBookL1),
    OrderBook(OrderBook),
    Candle(Candle),
    Liquidation(Liquidation),
    MarkPrice(MarkPrice),
    OptionSummary(OptionSummary),
    Account(Account),
    Balance(Balance),
    Greek(Greek),
    Position(Position),
}

/// The name by which a kind of payload goes, empty for the kinds that have
/// none.
pub open spec fn kind_name(kind: DataKind) -> Seq<char> {
    match kind {
        DataKind::Trade(_) => "trade"@,
        DataKind::OrderBook(_) => "orderbook"@,
        DataKind::MarkPrice(_) => "mark"@,
        DataKind::Account(_) => "account"@,
        DataKind::Position(_) => "positions"@,
        DataKind::Balance(_) => "balance_and_position"@,
        DataKind::OptionSummary(_) => "opt-summary"@,
        _ => ""@,
    }
}

impl DataKind {
    /// The name by which this kind of payload goes, empty for the kinds that
    /// have none.
    pub fn as_str(&self) -> (name: &'static str)
        ensures
            name@ == kind_name(*self),
    {
        match self {
            DataKind::Trade(_) => "trade",
            DataKind::OrderBook(_) => "orderbook",
            DataKind::MarkPrice(_) => "mark",
            DataKind::Account(_) => "account",
            DataKind::Position(_) => "positions",
            DataKind::Balance(_) => "balance_and_position",
            DataKind::OptionSummary(_) => "opt-summary",
            _ => "",
        }
    }
}

/// True when `merged` is `event` with its payload wrapped as `kind`.
pub open spec fn is_merged<T>(merged: MarketEvent<DataKind>, event: MarketEvent<T>, kind: DataKind) -> bool {
    merged.exchange_time == event.exchange_time && merged.received_time == event.received_time
        && merged.exchange == event.exchange && merged.instrument == event.instrument && merged.kind
        == kind
}

impl From<MarketEvent<PublicTrade>> for MarketEvent<DataKind> {
    fn from(event: MarketEvent<PublicTrade>) -> (merged: Self)
        ensures
            is_merged(merged, event, DataKind::Trade(event.kind)),
    {
        MarketEvent {
            exchange_time: event.exchange_time,
            received_time: event.received_time,
            exchange: event.exchange,
            instrument: event.instrument,
            kind: DataKind::Trade(event.kind),
        }
    }
}

impl vstd::std_specs::convert::FromSpecImpl<MarketEvent<PublicTrade>> for MarketEvent<DataKind> {
    open spec fn obeys_from_spec() -> bool {
        true
    }

    open spec fn from_spec(event: MarketEvent<PublicTrade>) -> Self {
        MarketEvent {
            exchange_time: event.exchange_time,
            received_time: event.received_time,
            exchange: event.exchange,
            instrument: event.instrument,
            kind: DataKind::Trade(event.kind),
        }
    }
}

impl From<MarketEvent<Pong>> for MarketEvent<DataKind> {
    fn from(event: MarketEvent<Pong>) -> (merged: Self)
        ensures
            is_merged(merged, event, DataKind::Pong(event.kind)),
    {
        MarketEvent {
            exchange_time: event.exchange_time,
            received_time: event.received_time,
            exchange: event.exchange,
            instrument: event.instrument,
            kind: DataKind::Pong(event.kind),
        }
    }
}

impl vstd::std_specs::convert::FromSpecImpl<MarketEvent<Pong>> for MarketEvent<DataKind> {
    open spec fn obeys_from_spec() -> bool {
        true
    }

    open spec fn from_spec(event: MarketEvent<Pong>) -> Self {
        MarketEvent {
            exchange_time: event.exchange_time,
            received_time: event.received_time,
            exchange: event.exchange,
            instrument: event.instrument,
            kind: DataKind::Pong(event.kind),
        }
    }
}

impl From<MarketEvent<OrderBookL1>> for MarketEvent<DataKind> {
    fn from(event: MarketEvent<OrderBookL1>) -> (merged: Self)
        ensures
            is_merged(merged, event, DataKind::OrderBookL1(event.kind)),
    {
        MarketEvent {
            exchange_time: event.exchange_time,
            received_time: event.received_time,
            exchange: event.exchange,
            instrument: event.instrument,
            kind: DataKind::OrderBookL1(event.kind),
        }
    }
}

impl vstd::std_specs::convert::FromSpecImpl<MarketEvent<OrderBookL1>> for MarketEvent<DataKind> {
    open spec fn obeys_from_spec() -> bool {
        true
    }

    open spec fn from_spec(event: MarketEvent<OrderBookL1>) -> Self {
        MarketEvent {
            exchange_time: event.exchange_time,
            received_time: event.received_time,
            exchange: event.exchange,
            instrument: event.instrument,
            kind: DataKind::OrderBookL1(event.kind),
        }
    }
}

impl From<MarketEvent<OrderBook>> for MarketEvent<DataKind> {
    fn from(event: MarketEvent<OrderBook>) -> (merged: Self)
        ensures
            is_merged(merged, event, DataKind::OrderBook(event.kind)),
    {
        MarketEvent {
            exchange_time: event.exchange_time,
            received_time: event.received_time,
            exchange: event.exchange,
            instrument: event.instrument,
            kind: DataKind::OrderBook(event.kind),
        }
    }
}

impl vstd::std_specs::convert::FromSpecImpl<MarketEvent<OrderBook>> for MarketEvent<DataKind> {
    open spec fn obeys_from_spec() -> bool {
        true
    }

    open spec fn from_spec(event: MarketEvent<OrderBook>) -> Self {
        MarketEvent {
            exchange_time: event.exchange_time,
            received_time: event.received_time,
            exchange: event.exchange,
            instrument: event.instrument,
            kind: DataKind::OrderBook(event.kind),
        }
    }
}

impl From<MarketEvent<Candle>> for MarketEvent<DataKind> {
    fn from(event: MarketEvent<Candle>) -> (merged: Self)
        ensures
            is_merged(merged, event, DataKind::Candle(event.kind)),
    {
        MarketEvent {
            exchange_time: event.exchange_time,
            received_time: event.received_time,
            exchange: event.exchange,
            instrument: event.instrument,
            kind: DataKind::Candle(event.kind),
        }
    }
}

impl vstd::std_specs::convert::FromSpecImpl<MarketEvent<Candle>> for MarketEvent<DataKind> {
    open spec fn obeys_from_spec() -> bool {
        true
    }

    open spec fn from_spec(event: MarketEvent<Candle>) -> Self {
        MarketEvent {
            exchange_time: event.exchange_time,
            received_time: event.received_time,
            exchange: event.exchange,
            instrument: event.instrument,
            kind: DataKind::Candle(event.kind),
        }
    }
}

impl From<MarketEvent<Liquidation>> for MarketEvent<DataKind> {
    fn from(event: MarketEvent<Liquidation>) -> (merged: Self)
        ensures
            is_merged(merged, event, DataKind::Liquidation(event.kind)),
    {
        MarketEvent {
            exchange_time: event.exchange_time,
            received_time: event.received_time,
            exchange: event.exchange,
            instrument: event.instrument,
            kind: DataKind::Liquidation(event.kind),
        }
    }
}

impl vstd::std_specs::convert::FromSpecImpl<MarketEvent<Liquidation>> for MarketEvent<DataKind> {
    open spec fn obeys_from_spec() -> bool {
        true
    }

    open spec fn from_spec(event: MarketEvent<Liquidation>) -> Self {
        MarketEvent {
            exchange_time: event.exchange_time,
            received_time: event.received_time,
            exchange: event.exchange,
            instrument: event.instrument,
            kind: DataKind::Liquidation(event.kind),
        }
    }
}

impl From<MarketEvent<MarkPrice>> for MarketEvent<DataKind> {
    fn from(event: MarketEvent<MarkPrice>) -> (merged: Self)
        ensures
            is_merged(merged, event, DataKind::MarkPrice(event.kind)),
    {
        MarketEvent {
            exchange_time: event.exchange_time,
            received_time: event.received_time,
            exchange: event.exchange,
            instrument: event.instrument,
            kind: DataKind::MarkPrice(event.kind),
        }
    }
}

impl vstd::std_specs::convert::FromSpecImpl<MarketEvent<MarkPrice>> for MarketEvent<DataKind> {
    open spec fn obeys_from_spec() -> bool {
        true
    }

    open spec fn from_spec(event: MarketEvent<MarkPrice>) -> Self {
        MarketEvent {
            exchange_time: event.exchange_time,
            received_time: event.received_time,
            exchange: event.exchange,
            instrument: event.instrument,
            kind: DataKind::MarkPrice(event.kind),
        }
    }
}

impl From<MarketEvent<OptionSummary>> for MarketEvent<DataKind> {
    fn from(event: MarketEvent<OptionSummary>) -> (merged: Self)
        ensures
            is_merged(merged, event, DataKind::OptionSummary(event.kind)),
    {
        MarketEvent {
            exchange_time: event.exchange_time,
            received_time: event.received_time,
            exchange: event.exchange,
            instrument: event.instrument,
            kind: DataKind::OptionSummary(event.kind),
        }
    }
}

impl vstd::std_specs::convert::FromSpecImpl<MarketEvent<OptionSummary>> for MarketEvent<DataKind> {
    open spec fn obeys_from_spec() -> bool {
        true
    }

    open spec fn from_spec(event: MarketEvent<OptionSummary>) -> Self {
        MarketEvent {
            exchange_time: event.exchange_time,
            received_time: event.received_time,
            exchange: event.exchange,
            instrument: event.instrument,
            kind: DataKind::OptionSummary(event.kind),
        }
    }
}

impl From<MarketEvent<Balance>> for MarketEvent<DataKind> {
    fn from(event: MarketEvent<Balance>) -> (merged: Self)
        ensures
            is_merged(merged, event, DataKind::Balance(event.kind)),
    {
        MarketEvent {
            exchange_time: event.exchange_time,
            received_time: event.received_time,
            exchange: event.exchange,
            instrument: event.instrument,
            kind: DataKind::Balance(event.kind),
        }
    }
}

impl vstd::std_specs::convert::FromSpecImpl<MarketEvent<Balance>> for MarketEvent<DataKind> {
    open spec fn obeys_from_spec() -> bool {
        true
    }

    open spec fn from_spec(event: MarketEvent<Balance>) -> Self {
        MarketEvent {
            exchange_time: event.exchange_time,
            received_time: event.received_time,
            exchange: event.exchange,
            instrument: event.instrument,
            kind: DataKind::Balance(event.kind),
        }
    }
}

impl From<MarketEvent<Position>> for MarketEvent<DataKind> {
    fn from(event: MarketEvent<Position>) -> (merged: Self)
        ensures
            is_merged(merged, event, DataKind::Position(event.kind)),
    {
        MarketEvent {
            exchange_time: event.exchange_time,
            received_time: event.received_time,
            exchange: event.exchange,
            instrument: event.instrument,
            kind: DataKind::Position(event.kind),
        }
    }
}

impl vstd::std_specs::convert::FromSpecImpl<MarketEvent<Position>> for MarketEvent<DataKind> {
    open spec fn obeys_from_spec() -> bool {
        true
    }

    open spec fn from_spec(event: MarketEvent<Position>) -> Self {
        MarketEvent {
            exchange_time: event.exchange_time,
            received_time: event.received_time,
            exchange: event.exchange,
            instrument: event.instrument,
            kind: DataKind::Position(event.kind),
        }
    }
}

} // verus!
