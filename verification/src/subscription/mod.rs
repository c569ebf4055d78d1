//! Subscriptions: what a caller asks an exchange for.

use crate::error::SocketError;
use crate::exchange::{supported, Connector};
use crate::instrument::{Instrument, InstrumentKind};
use crate::text::lowercase;
use crate::web::WsMessage;
use vstd::prelude::*;
use vstd::string::*;

pub mod account;
pub mod balance;
pub mod book;
pub mod candle;
pub mod greek;
pub mod liquidation;
pub mod mark_price;
pub mod option_summary;
pub mod order;
pub mod pong;
pub mod position;
pub mod trade;

verus! {

/// The key by which a message from an exchange finds the instrument that was
/// subscribed to: the exchange's name of the channel, a bar, and its name of
/// the market.
#[derive(Debug)]
pub struct SubscriptionId(pub String);

impl View for SubscriptionId {
    type V = Seq<char>;

    open spec fn view(&self) -> Seq<char> {
        self.0@
    }
}

impl Clone for SubscriptionId {
    fn clone(&self) -> (copy: Self)
        ensures
            copy == *self,
    {
        SubscriptionId(self.0.clone())
    }
}

impl SubscriptionId {
    /// The identifier's text.
    pub fn as_ref(&self) -> (text: &str)
        ensures
            text@ == self@,
    {
        self.0.as_str()
    }
}

/// A category of normalised events, which fixes the payload of the events
/// that a subscription of this kind yields.
pub trait SubKind: Sized {
    type Event;
}

/// A request for one feed: an instrument on an exchange, and the kind of
/// events wanted of it.
#[derive(Debug)]
pub struct Subscription<Exchange, Kind> {
    pub exchange: Exchange,
    pub instrument: Instrument,
    pub kind: Kind,
}

impl<Exchange, Kind> Subscription<Exchange, Kind> {
    /// Makes a subscription from its parts.
    pub fn new(exchange: Exchange, instrument: Instrument, kind: Kind) -> (subscription: Self)
        ensures
            subscription.exchange == exchange,
            subscription.instrument == instrument,
            subscription.kind == kind,
    {
        Subscription { exchange, instrument, kind }
    }
}

impl<Exchange: Connector, Kind> Subscription<Exchange, Kind> {
    /// Checks that the exchange lists instruments of this subscription's
    /// kind.
    pub fn validate(&self) -> (result: Result<(), SocketError>)
        ensures
            match result {
                Ok(_) => supported(Exchange::exchange(), self.instrument.kind),
                Err(SocketError::Unsupported { entity, item }) => !supported(
                    Exchange::exchange(),
                    self.instrument.kind,
                ) && entity == Exchange::exchange() && item == self.instrument.kind,
                Err(_) => false,
            },
    {
        let exchange = Exchange::id();
        if exchange.supports(&self.instrument.kind) {
            Ok(())
        } else {
            Err(SocketError::Unsupported { entity: exchange, item: self.instrument.kind })
        }
    }
}

impl<'a, Exchange, Kind> From<(Exchange, &'a str, &'a str, InstrumentKind, Kind)> for Subscription<Exchange, Kind> {
    /// Makes a subscription from an exchange, the base and quote symbols in
    /// any spelling, the kind of instrument and the kind of events.
    fn from(input: (Exchange, &'a str, &'a str, InstrumentKind, Kind)) -> (subscription: Self)
        ensures
            subscription.exchange == input.0,
            subscription.instrument@ == (lowercase(input.1@), lowercase(input.2@), input.3),
            subscription.kind == input.4,
    {
        Subscription {
            exchange: input.0,
            instrument: Instrument::new(input.1, input.2, input.3),
            kind: input.4,
        }
    }
}

impl<'a, Exchange, Kind> vstd::std_specs::convert::FromSpecImpl<(Exchange, &'a str, &'a str, InstrumentKind, Kind)> for Subscription<Exchange, Kind> {
    open spec fn obeys_from_spec() -> bool {
        false
    }

    open spec fn from_spec(input: (Exchange, &'a str, &'a str, InstrumentKind, Kind)) -> Self {
        arbitrary()
    }
}

/// The map that a run of (identifier, instrument) pairs makes when they are
/// put into a map one after the other: a later pair replaces an earlier one
/// with the same identifier.
pub open spec fn map_of(pairs: Seq<(Seq<char>, (Seq<char>, Seq<char>, InstrumentKind))>) -> Map<
    Seq<char>,
    (Seq<char>, Seq<char>, InstrumentKind),
>
    decreases pairs.len(),
{
    if pairs.len() == 0 {
        Map::empty()
    } else {
        map_of(pairs.drop_last()).insert(pairs.last().0, pairs.last().1)
    }
}

/// True when no identifier stands twice in the run of pairs.
pub open spec fn distinct_ids(
    pairs: Seq<(Seq<char>, (Seq<char>, Seq<char>, InstrumentKind))>,
) -> bool {
    forall|i: int, j: int|
        0 <= i < j < pairs.len() ==> (#[trigger] pairs[i]).0 != (#[trigger] pairs[j]).0
}

proof fn lemma_map_of_absent(
    pairs: Seq<(Seq<char>, (Seq<char>, Seq<char>, InstrumentKind))>,
    id: Seq<char>,
)
    requires
        forall|i: int| 0 <= i < pairs.len() ==> (#[trigger] pairs[i]).0 != id,
    ensures
        !map_of(pairs).dom().contains(id),
    decreases pairs.len(),
{
    if pairs.len() > 0 {
        assert(pairs.last() == pairs[pairs.len() - 1]);
        lemma_map_of_absent(pairs.drop_last(), id);
    }
}

proof fn lemma_map_of_present(
    pairs: Seq<(Seq<char>, (Seq<char>, Seq<char>, InstrumentKind))>,
    at: int,
)
    requires
        distinct_ids(pairs),
        0 <= at < pairs.len(),
    ensures
        map_of(pairs).dom().contains(pairs[at].0),
        map_of(pairs)[pairs[at].0] == pairs[at].1,
    decreases pairs.len(),
{
    if at < pairs.len() - 1 {
        assert(pairs.last() == pairs[pairs.len() - 1]);
        assert(pairs.drop_last()[at] == pairs[at]);
        lemma_map_of_present(pairs.drop_last(), at);
    }
}

proof fn lemma_map_of_replace(
    pairs: Seq<(Seq<char>, (Seq<char>, Seq<char>, InstrumentKind))>,
    at: int,
    instrument: (Seq<char>, Seq<char>, InstrumentKind),
)
    requires
        distinct_ids(pairs),
        0 <= at < pairs.len(),
    ensures
        map_of(pairs.update(at, (pairs[at].0, instrument))) == map_of(pairs).insert(
            pairs[at].0,
            instrument,
        ),
    decreases pairs.len(),
{
    let changed = pairs.update(at, (pairs[at].0, instrument));
    if at == pairs.len() - 1 {
        assert(changed.drop_last() =~= pairs.drop_last());
        assert(map_of(changed) =~= map_of(pairs).insert(pairs[at].0, instrument));
    } else {
        assert(pairs.last() == pairs[pairs.len() - 1]);
        assert(pairs.drop_last()[at] == pairs[at]);
        assert(changed.drop_last() =~= pairs.drop_last().update(at, (pairs[at].0, instrument)));
        lemma_map_of_replace(pairs.drop_last(), at, instrument);
        assert(map_of(changed) =~= map_of(pairs).insert(pairs[at].0, instrument));
    }
}

proof fn lemma_map_of_len(pairs: Seq<(Seq<char>, (Seq<char>, Seq<char>, InstrumentKind))>)
    requires
        distinct_ids(pairs),
    ensures
        map_of(pairs).dom().finite(),
        map_of(pairs).dom().len() == pairs.len(),
    decreases pairs.len(),
{
    if pairs.len() > 0 {
        assert(pairs.last() == pairs[pairs.len() - 1]);
        assert forall|i: int| 0 <= i < pairs.drop_last().len() implies (
        #[trigger] pairs.drop_last()[i]).0 != pairs.last().0 by {
            assert(pairs.drop_last()[i] == pairs[i]);
        }
        lemma_map_of_len(pairs.drop_last());
        lemma_map_of_absent(pairs.drop_last(), pairs.last().0);
    }
}

/// The instruments that were subscribed to, each under the identifier that
/// messages about it carry.
#[derive(Debug)]
pub struct InstrumentMap {
    entries: Vec<(SubscriptionId, Instrument)>,
}

impl View for InstrumentMap {
    type V = Map<Seq<char>, (Seq<char>, Seq<char>, InstrumentKind)>;

    closed spec fn view(&self) -> Map<Seq<char>, (Seq<char>, Seq<char>, InstrumentKind)> {
        map_of(self.pairs())
    }
}

impl InstrumentMap {
    spec fn pairs(&self) -> Seq<(Seq<char>, (Seq<char>, Seq<char>, InstrumentKind))> {
        Seq::new(self.entries@.len(), |i: int| (self.entries@[i].0@, self.entries@[i].1@))
    }

    #[verifier::type_invariant]
    spec fn wf(&self) -> bool {
        distinct_ids(self.pairs())
    }

    /// An empty map.
    pub fn new() -> (map: Self)
        ensures
            map@ == Map::<Seq<char>, (Seq<char>, Seq<char>, InstrumentKind)>::empty(),
    {
        let map = InstrumentMap { entries: Vec::new() };
        assert(map.pairs() =~= Seq::empty());
        map
    }

    /// The number of identifiers in the map.
    pub fn len(&self) -> (len: usize)
        ensures
            self@.dom().finite(),
            len == self@.dom().len(),
    {
        proof {
            use_type_invariant(self);
            lemma_map_of_len(self.pairs());
        }
        self.entries.len()
    }

    fn position(&self, id: &SubscriptionId) -> (at: Option<usize>)
        ensures
            match at {
                Some(at) => at < self.pairs().len() && self.pairs()[at as int].0 == id@,
                None => forall|i: int| 0 <= i < self.pairs().len() ==> (#[trigger] self.pairs()[i]).0
                    != id@,
            },
    {
        let mut i: usize = 0;
        while i < self.entries.len()
            invariant
                i <= self.entries@.len(),
                self.pairs().len() == self.entries@.len(),
                forall|j: int| 0 <= j < i ==> (#[trigger] self.pairs()[j]).0 != id@,
            decreases self.entries@.len() - i,
        {
            if self.entries[i].0.0 == id.0 {
                return Some(i);
            }
            i = i + 1;
        }
        None
    }

    /// Puts an instrument under an identifier; an instrument that stood
    /// under it before is replaced.
    pub fn insert(&mut self, id: SubscriptionId, instrument: Instrument)
        ensures
            final(self)@ == old(self)@.insert(id@, instrument@),
    {
        proof {
            use_type_invariant(&*self);
        }
        let ghost before = self.pairs();
        let at = self.position(&id);
        let mut held = InstrumentMap::new();
        core::mem::swap(self, &mut held);
        let mut entries = held.entries;
        match at {
            Some(at) => {
                proof {
                    lemma_map_of_replace(before, at as int, instrument@);
                }
                entries.set(at, (id, instrument));
            },
            None => {
                entries.push((id, instrument));
            },
        }
        let ghost after = Seq::new(entries@.len(), |i: int| (entries@[i].0@, entries@[i].1@));
        proof {
            match at {
                Some(at) => {
                    assert(after =~= before.update(at as int, (before[at as int].0, instrument@)));
                },
                None => {
                    assert(after =~= before.push((id@, instrument@)));
                    assert(after.drop_last() =~= before);
                },
            }
        }
        *self = InstrumentMap { entries };
        assert(self.pairs() =~= after);
    }

    /// The instrument that stands under an identifier.
    pub fn find(&self, id: &SubscriptionId) -> (found: Result<Instrument, SocketError>)
        ensures
            match found {
                Ok(instrument) => self@.dom().contains(id@) && instrument@ == self@[id@],
                Err(SocketError::Unidentifiable(unknown)) => !self@.dom().contains(id@) && unknown@
                    == id@,
                Err(_) => false,
            },
    {
        proof {
            use_type_invariant(self);
        }
        match self.position(id) {
            Some(at) => {
                proof {
                    lemma_map_of_present(self.pairs(), at as int);
                }
                Ok(self.entries[at].1.clone())
            },
            None => {
                proof {
                    lemma_map_of_absent(self.pairs(), id@);
                }
                Err(SocketError::Unidentifiable(id.clone()))
            },
        }
    }
}

/// What is needed to subscribe over one socket: the frames to send, and the
/// instruments under the identifiers that the answers will carry.
#[derive(Debug)]
pub struct SubscriptionMeta {
    pub instrument_map: InstrumentMap,
    pub subscriptions: Vec<WsMessage>,
}

} // verus!
