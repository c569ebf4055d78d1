//! From subscriptions to the frames that ask for them.

use crate::exchange::{channel_name, market_name, subscription_key, Connector, ExchangeSub};
use crate::instrument::InstrumentKind;
use crate::subscription::{map_of, InstrumentMap, Subscription, SubscriptionMeta};
use crate::web::are_texts;
use crate::Identifier;
use vstd::prelude::*;

verus! {

/// The channel and market that each of a run of subscriptions asks for.
pub open spec fn requested<Exchange, Kind>(
    subscriptions: Seq<Subscription<Exchange, Kind>>,
) -> Seq<(Seq<char>, Seq<char>)> where
    Exchange: Connector,
    Subscription<Exchange, Kind>: Identifier<Exchange::Channel> + Identifier<Exchange::Market>,
 {
    Seq::new(
        subscriptions.len(),
        |i: int| (channel_name(&subscriptions[i]), market_name(&subscriptions[i])),
    )
}

/// The identifier of each of a run of subscriptions, with the instrument
/// that was subscribed to.
pub open spec fn identified<Exchange, Kind>(
    subscriptions: Seq<Subscription<Exchange, Kind>>,
) -> Seq<(Seq<char>, (Seq<char>, Seq<char>, InstrumentKind))> where
    Exchange: Connector,
    Subscription<Exchange, Kind>: Identifier<Exchange::Channel> + Identifier<Exchange::Market>,
 {
    Seq::new(
        subscriptions.len(),
        |i: int|
            (
                subscription_key(channel_name(&subscriptions[i]), market_name(&subscriptions[i])),
                subscriptions[i].instrument@,
            ),
    )
}

/// Turns subscriptions into what is needed to subscribe over one socket.
pub trait SubscriptionMapper {
    /// The frames that ask for the subscriptions, in their order, and the
    /// instrument of each subscription under its identifier.
    fn map<Exchange, Kind>(subscriptions: &[Subscription<Exchange, Kind>]) -> (meta:
        SubscriptionMeta) where
        Exchange: Connector,
        Subscription<Exchange, Kind>: Identifier<Exchange::Channel> + Identifier<Exchange::Market>,

        ensures
            meta.instrument_map@ == map_of(identified(subscriptions@)),
            are_texts(meta.subscriptions@, Exchange::frames(requested(subscriptions@))),
    ;
}

/// The mapper for exchanges that are reached over a WebSocket.
#[derive(Clone, Copy, Debug, PartialEq, Eq, Structural)]
pub struct WebSocketSubMapper;

impl SubscriptionMapper for WebSocketSubMapper {
    fn map<Exchange, Kind>(subscriptions: &[Subscription<Exchange, Kind>]) -> (meta:
        SubscriptionMeta) where
        Exchange: Connector,
        Subscription<Exchange, Kind>: Identifier<Exchange::Channel> + Identifier<Exchange::Market>,
     {
        let mut instrument_map = InstrumentMap::new();
        let mut exchange_subs: Vec<ExchangeSub<Exchange::Channel, Exchange::Market>> = Vec::new();
        let mut i: usize = 0;
        while i < subscriptions.len()
            invariant
                i <= subscriptions@.len(),
                exchange_subs@.len() == i,
                instrument_map@ == map_of(identified(subscriptions@).take(i as int)),
                forall|j: int|
                    0 <= j < i ==> (#[trigger] exchange_subs@[j]).names() == requested(
                        subscriptions@,
                    )[j],
            decreases subscriptions@.len() - i,
        {
            let exchange_sub = ExchangeSub::new(&subscriptions[i]);
            let subscription_id = exchange_sub.id();
            proof {
                let done = identified(subscriptions@).take(i as int);
                let next = identified(subscriptions@).take(i + 1);
                assert(next.drop_last() =~= done);
                assert(next.last() == (subscription_id@, subscriptions@[i as int].instrument@));
            }
            instrument_map.insert(subscription_id, subscriptions[i].instrument.clone());
            exchange_subs.push(exchange_sub);
            i = i + 1;
        }
        proof {
            assert(identified(subscriptions@).take(subscriptions@.len() as int) =~= identified(
                subscriptions@,
            ));
            assert(crate::exchange::all_names(exchange_subs@) =~= requested(subscriptions@));
        }
        let subscriptions = Exchange::requests(exchange_subs);
        SubscriptionMeta { instrument_map, subscriptions }
    }
}

/// The requests for a batch that stands in the strict order of its
/// instruments ask for no channel and market twice, as long as the exchange
/// names the markets of different instruments of the batch differently.
pub proof fn law_requests_are_distinct<Exchange, Kind>(
    distinct: Seq<Subscription<Exchange, Kind>>,
) where
    Exchange: Connector,
    Subscription<Exchange, Kind>: Identifier<Exchange::Channel> + Identifier<Exchange::Market>,

    requires
        crate::streams::builder::strictly_sorted(distinct),
        forall|i: int, j: int|
            0 <= i < distinct.len() && 0 <= j < distinct.len() && distinct[i].instrument@
                != distinct[j].instrument@ ==> #[trigger] market_name(&distinct[i])
                != #[trigger] market_name(&distinct[j]),
    ensures
        requested(distinct).len() == distinct.len(),
        forall|i: int, j: int|
            0 <= i < j < distinct.len() ==> #[trigger] requested(distinct)[i]
                != #[trigger] requested(distinct)[j],
{
    assert forall|i: int, j: int| 0 <= i < j < distinct.len() implies #[trigger] requested(
        distinct,
    )[i] != #[trigger] requested(distinct)[j] by {
        crate::instrument::lemma_instrument_before_irreflexive(distinct[i].instrument@);
        assert(crate::instrument::instrument_before(
            distinct[i].instrument@,
            distinct[j].instrument@,
        ));
        assert(market_name(&distinct[i]) != market_name(&distinct[j]));
    }
}

} // verus!
