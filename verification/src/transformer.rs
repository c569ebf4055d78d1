//! From the messages of an exchange to market events.

use crate::error::{DataError, SocketError};
use crate::event::{is_event_of, MarketEvent, MarketIter};
use crate::exchange::Connector;
use crate::model::Timestamp;
use crate::subscription::{InstrumentMap, SubKind, SubscriptionId};
use core::marker::PhantomData;
use vstd::prelude::*;

verus! {

/// Turns the messages of one exchange on one socket into events of one
/// kind. It keeps nothing from one message to the next: all it knows are the
/// instruments that were subscribed to, each under the identifier that the
/// messages about it carry.
#[derive(Debug)]
pub struct StatelessTransformer<Exchange, Kind> {
    pub instrument_map: InstrumentMap,
    pub phantom: PhantomData<(Exchange, Kind)>,
}

/// True when the result is the event for an item of a message about the
/// instrument that stands under `id`.
pub open spec fn is_event_about<T>(
    made: Result<MarketEvent<T>, DataError>,
    transformer_map: Map<Seq<char>, (Seq<char>, Seq<char>, crate::instrument::InstrumentKind)>,
    id: Seq<char>,
    exchange: crate::exchange::ExchangeId,
    received_time: Timestamp,
    item: (Timestamp, T),
) -> bool {
    made matches Ok(event) && event.exchange_time == item.0 && event.received_time == received_time
        && event.exchange == exchange && event.instrument@ == transformer_map[id] && event.kind
        == item.1
}

impl<Exchange: Connector, Kind: SubKind> StatelessTransformer<Exchange, Kind> {
    /// A transformer for the given instruments.
    pub fn new(instrument_map: InstrumentMap) -> (transformer: Self)
        ensures
            transformer.instrument_map == instrument_map,
    {
        StatelessTransformer { instrument_map, phantom: PhantomData }
    }

    /// Turns one message into events. `id` is the identifier that the
    /// message carries, if it carries one, `items` what it reports, each item
    /// with the time that the exchange gives for it, and `received_time` the
    /// time at which the message came in.
    ///
    /// A message without identifier yields nothing. A message whose
    /// identifier stands for an instrument yields one event for each item, in
    /// the order of the items, all about that instrument. A message whose
    /// identifier is unknown yields one error, which tells the identifier.
    pub fn transform(
        &self,
        id: Option<SubscriptionId>,
        received_time: Timestamp,
        items: Vec<(Timestamp, Kind::Event)>,
    ) -> (events: Vec<Result<MarketEvent<Kind::Event>, DataError>>)
        ensures
            match id {
                None => events@.len() == 0,
                Some(id) => if self.instrument_map@.dom().contains(id@) {
                    events@.len() == items@.len() && forall|i: int|
                        0 <= i < items@.len() ==> is_event_about(
                            #[trigger] events@[i],
                            self.instrument_map@,
                            id@,
                            Exchange::exchange(),
                            received_time,
                            items@[i],
                        )
                } else {
                    events@.len() == 1 && (events@[0] matches Err(
                        DataError::Socket(SocketError::Unidentifiable(unknown)),
                    ) && unknown@ == id@)
                },
            },
    {
        let id = match id {
            Some(id) => id,
            None => {
                return Vec::new();
            },
        };
        match self.instrument_map.find(&id) {
            Ok(instrument) => {
                let events = MarketIter::from((Exchange::id(), instrument, received_time, items)).0;
                proof {
                    assert forall|i: int| 0 <= i < items@.len() implies is_event_about(
                        #[trigger] events@[i],
                        self.instrument_map@,
                        id@,
                        Exchange::exchange(),
                        received_time,
                        items@[i],
                    ) by {
                        assert(is_event_of(
                            events@[i],
                            Exchange::exchange(),
                            instrument,
                            received_time,
                            items@[i],
                        ));
                    }
                }
                events
            },
            Err(unidentifiable) => {
                let mut events: Vec<Result<MarketEvent<Kind::Event>, DataError>> = Vec::new();
                events.push(Err(DataError::Socket(unidentifiable)));
                events
            },
        }
    }
}

} // verus!
