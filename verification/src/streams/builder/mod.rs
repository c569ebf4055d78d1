//! Setting up streams of market events.

use crate::Identifier;
use crate::error::{DataError, SocketError};
use crate::exchange::{supported, Connector, ExchangeId, PingInterval, StreamSelector};
use crate::instrument::{
    instrument_before, lemma_instrument_before_irreflexive, lemma_instrument_before_total,
    lemma_instrument_before_transitive, InstrumentKind,
};
use crate::sequence::reversed;
use crate::subscriber::{plans, subscribe, Handshake};
use crate::subscription::{SubKind, Subscription};
use core::marker::PhantomData;
use vstd::prelude::*;
use vstd::string::*;

pub mod multi;
pub mod signer;

pub use crate::streams::builder::signer::{LoginAnswer, Signer, LOGIN_URL};

verus! {

/// True when every one of the first `count` subscriptions asks for a kind of
/// instrument that the exchange lists.
pub open spec fn all_supported<Exchange, Kind>(
    subscriptions: Seq<Subscription<Exchange, Kind>>,
    count: int,
) -> bool where Exchange: StreamSelector<Kind>, Kind: SubKind {
    forall|i: int|
        0 <= i < count ==> supported(
            Exchange::exchange(),
            (#[trigger] subscriptions[i]).instrument.kind,
        )
}

/// Checks a batch of subscriptions before anything is sent: the batch must
/// not be empty, and the exchange must list the kind of instrument of every
/// subscription in it. The error tells the first subscription that fails.
pub fn validate<Exchange, Kind>(subscriptions: &[Subscription<Exchange, Kind>]) -> (result: Result<
    (),
    DataError,
>) where Exchange: StreamSelector<Kind>, Kind: SubKind
    ensures
        match result {
            Ok(_) => subscriptions@.len() > 0 && all_supported(
                subscriptions@,
                subscriptions@.len() as int,
            ),
            Err(DataError::Socket(SocketError::Subscribe(reason))) => subscriptions@.len() == 0
                && reason@ == "StreamBuilder contains no Subscription to action"@,
            Err(DataError::Socket(SocketError::Unsupported { entity, item })) => exists|at: int|
                0 <= at < subscriptions@.len() && all_supported(subscriptions@, at) && !supported(
                    Exchange::exchange(),
                    #[trigger] subscriptions@[at].instrument.kind,
                ) && entity == Exchange::exchange() && item == subscriptions@[at].instrument.kind,
            Err(_) => false,
        },
{
    if subscriptions.len() == 0 {
        return Err(
            DataError::Socket(
                SocketError::Subscribe(
                    String::from_str("StreamBuilder contains no Subscription to action"),
                ),
            ),
        );
    }
    let mut i: usize = 0;
    while i < subscriptions.len()
        invariant
            i <= subscriptions@.len(),
            all_supported(subscriptions@, i as int),
        decreases subscriptions@.len() - i,
    {
        match subscriptions[i].validate() {
            Ok(_) => {},
            Err(error) => {
                return Err(DataError::Socket(error));
            },
        }
        i = i + 1;
    }
    Ok(())
}

/// True when the subscriptions stand in the strict order of their
/// instruments, so that no instrument stands twice.
pub open spec fn strictly_sorted<Exchange, Kind>(
    subscriptions: Seq<Subscription<Exchange, Kind>>,
) -> bool {
    forall|i: int, j: int|
        0 <= i < j < subscriptions.len() ==> instrument_before(
            (#[trigger] subscriptions[i]).instrument@,
            (#[trigger] subscriptions[j]).instrument@,
        )
}

/// True when one of the subscriptions asks for the given instrument.
pub open spec fn asks_for<Exchange, Kind>(
    subscriptions: Seq<Subscription<Exchange, Kind>>,
    instrument: (Seq<char>, Seq<char>, InstrumentKind),
) -> bool {
    exists|i: int|
        0 <= i < subscriptions.len() && (#[trigger] subscriptions[i]).instrument@ == instrument
}

/// True when the given subscription is one of the subscriptions.
pub open spec fn is_among<Exchange, Kind>(
    subscription: Subscription<Exchange, Kind>,
    subscriptions: Seq<Subscription<Exchange, Kind>>,
) -> bool {
    exists|i: int| 0 <= i < subscriptions.len() && #[trigger] subscriptions[i] == subscription
}

/// Puts the subscriptions of a batch in the order of their instruments and
/// keeps one subscription of each instrument.
pub fn sorted_without_duplicates<Exchange, Kind>(
    subscriptions: Vec<Subscription<Exchange, Kind>>,
) -> (distinct: Vec<Subscription<Exchange, Kind>>)
    ensures
        strictly_sorted(distinct@),
        forall|j: int| 0 <= j < distinct@.len() ==> is_among(#[trigger] distinct@[j], subscriptions@),
        forall|i: int|
            0 <= i < subscriptions@.len() ==> asks_for(
                distinct@,
                (#[trigger] subscriptions@[i]).instrument@,
            ),
{
    let ghost all = subscriptions@;
    let mut rest = subscriptions;
    let mut distinct: Vec<Subscription<Exchange, Kind>> = Vec::new();
    while rest.len() > 0
        invariant
            rest@.len() <= all.len(),
            forall|i: int| 0 <= i < rest@.len() ==> rest@[i] == all[i],
            strictly_sorted(distinct@),
            forall|j: int| 0 <= j < distinct@.len() ==> is_among(#[trigger] distinct@[j], all),
            forall|i: int|
                rest@.len() <= i < all.len() ==> asks_for(distinct@, (#[trigger] all[i]).instrument@),
        decreases rest@.len(),
    {
        let ghost before = distinct@;
        let ghost taken = rest@.len() - 1;
        let next = rest.pop().unwrap();
        assert(next == all[taken]);
        let mut at: usize = 0;
        while at < distinct.len() && distinct[at].instrument.precedes(&next.instrument)
            invariant
                at <= distinct@.len(),
                forall|k: int|
                    0 <= k < at ==> instrument_before(
                        (#[trigger] distinct@[k]).instrument@,
                        next.instrument@,
                    ),
            decreases distinct@.len() - at,
        {
            at = at + 1;
        }
        if at < distinct.len() && !next.instrument.precedes(&distinct[at].instrument) {
            proof {
                lemma_instrument_before_total(next.instrument@, distinct@[at as int].instrument@);
                assert(asks_for(distinct@, all[taken].instrument@));
            }
        } else {
            proof {
                assert forall|k: int| at <= k < before.len() implies instrument_before(
                    next.instrument@,
                    (#[trigger] before[k]).instrument@,
                ) by {
                    if k > at {
                        lemma_instrument_before_transitive(
                            next.instrument@,
                            before[at as int].instrument@,
                            before[k].instrument@,
                        );
                    }
                }
            }
            distinct.insert(at, next);
            proof {
                assert forall|j: int| 0 <= j < distinct@.len() implies is_among(
                    #[trigger] distinct@[j],
                    all,
                ) by {
                    if j < at {
                        assert(distinct@[j] == before[j]);
                    } else if j > at {
                        assert(distinct@[j] == before[j - 1]);
                    }
                }
                assert forall|i: int| taken <= i < all.len() implies asks_for(
                    distinct@,
                    (#[trigger] all[i]).instrument@,
                ) by {
                    if i == taken {
                        assert(distinct@[at as int].instrument@ == all[i].instrument@);
                    } else {
                        let k = choose|k: int|
                            0 <= k < before.len() && (#[trigger] before[k]).instrument@
                                == all[i].instrument@;
                        if k < at {
                            assert(distinct@[k] == before[k]);
                        } else {
                            assert(distinct@[k + 1] == before[k]);
                        }
                    }
                }
                assert forall|i: int, j: int| 0 <= i < j < distinct@.len() implies instrument_before(
                    (#[trigger] distinct@[i]).instrument@,
                    (#[trigger] distinct@[j]).instrument@,
                ) by {
                    let a = if i < at { i } else { i - 1 };
                    let b = if j < at { j } else { j - 1 };
                    if i != at && j != at {
                        assert(distinct@[i] == before[a]);
                        assert(distinct@[j] == before[b]);
                    } else if i == at {
                        assert(distinct@[j] == before[b]);
                    } else {
                        assert(distinct@[i] == before[a]);
                    }
                }
            }
        }
    }
    distinct
}

/// One socket to open: the exchange at its other end, the handshake that
/// subscribes over it, and how the exchange wants to be kept awake.
#[derive(Debug)]
pub struct Connection {
    pub exchange: ExchangeId,
    pub handshake: Handshake,
    pub keepalive: Option<PingInterval>,
}

/// What a batch of subscriptions comes to once it is checked: the connection
/// to open for it, or the error that keeps it from being opened.
pub type SubscribeFuture = Result<Connection, DataError>;

/// True when the keepalive is the one that the exchange asks for.
pub open spec fn keeps_alive<Exchange: Connector>(keepalive: Option<PingInterval>) -> bool {
    match Exchange::keepalive() {
        Some(wanted) => keepalive matches Some(ping) && ping.interval == wanted.0
            && ping.ping.is_text(wanted.1),
        None => keepalive.is_none(),
    }
}

/// True when `distinct` holds the subscriptions of `subscriptions` in the
/// order of their instruments, one for each instrument.
pub open spec fn is_sorted_without_duplicates<Exchange, Kind>(
    distinct: Seq<Subscription<Exchange, Kind>>,
    subscriptions: Seq<Subscription<Exchange, Kind>>,
) -> bool {
    &&& strictly_sorted(distinct)
    &&& forall|j: int| 0 <= j < distinct.len() ==> is_among(#[trigger] distinct[j], subscriptions)
    &&& forall|i: int|
        0 <= i < subscriptions.len() ==> asks_for(
            distinct,
            (#[trigger] subscriptions[i]).instrument@,
        )
}

/// True when the outcome is the connection that subscribes to exactly the
/// given subscriptions, in their order, or the error of an address that did
/// not parse.
pub open spec fn connects<Exchange, Kind>(
    outcome: Result<Connection, DataError>,
    signer: Option<Signer>,
    subscriptions: Seq<Subscription<Exchange, Kind>>,
) -> bool where
    Exchange: Connector,
    Subscription<Exchange, Kind>: Identifier<Exchange::Channel> + Identifier<Exchange::Market>,
 {
    match outcome {
        Ok(connection) => connection.exchange == Exchange::exchange() && keeps_alive::<Exchange>(
            connection.keepalive,
        ) && plans(
            Ok::<Handshake, SocketError>(connection.handshake),
            Exchange::has_login(),
            signer,
            subscriptions,
        ),
        Err(DataError::Socket(error)) => plans(
            Err::<Handshake, SocketError>(error),
            Exchange::has_login(),
            signer,
            subscriptions,
        ),
    }
}

/// What a batch of subscriptions comes to. An empty batch and a batch with a
/// subscription that the exchange does not list are errors, as [`validate`]
/// tells them. Any other batch comes to the connection that subscribes to its
/// subscriptions in the order of their instruments, once for each instrument.
pub open spec fn registers<Exchange, Kind>(
    outcome: Result<Connection, DataError>,
    signer: Option<Signer>,
    subscriptions: Seq<Subscription<Exchange, Kind>>,
) -> bool where
    Exchange: StreamSelector<Kind>,
    Kind: SubKind,
    Subscription<Exchange, Kind>: Identifier<Exchange::Channel> + Identifier<Exchange::Market>,
 {
    if subscriptions.len() == 0 {
        outcome matches Err(error) && error.is_subscribe(
            "StreamBuilder contains no Subscription to action"@,
        )
    } else if !all_supported(subscriptions, subscriptions.len() as int) {
        outcome matches Err(DataError::Socket(SocketError::Unsupported { entity, item }))
            && exists|at: int|
            0 <= at < subscriptions.len() && all_supported(subscriptions, at) && !supported(
                Exchange::exchange(),
                #[trigger] subscriptions[at].instrument.kind,
            ) && entity == Exchange::exchange() && item == subscriptions[at].instrument.kind
    } else {
        exists|distinct: Seq<Subscription<Exchange, Kind>>| #[trigger]
            is_sorted_without_duplicates(distinct, subscriptions) && connects(
                outcome,
                signer,
                distinct,
            )
    }
}

/// Checks a batch of subscriptions and plans the connection for it (see
/// [`registers`]). Nothing is sent and no socket is opened.
pub fn connection<Exchange, Kind>(
    signer: &Option<Signer>,
    subscriptions: Vec<Subscription<Exchange, Kind>>,
) -> (outcome: Result<Connection, DataError>) where
    Exchange: StreamSelector<Kind>,
    Kind: SubKind,
    Subscription<Exchange, Kind>: Identifier<Exchange::Channel> + Identifier<Exchange::Market>,

    ensures
        registers(outcome, *signer, subscriptions@),
{
    match validate(subscriptions.as_slice()) {
        Ok(_) => {},
        Err(error) => {
            return Err(error);
        },
    }
    let distinct = sorted_without_duplicates(subscriptions);
    assert(is_sorted_without_duplicates(distinct@, subscriptions@));
    match subscribe::<Exchange, Kind>(signer, distinct.as_slice()) {
        Ok(handshake) => {
            let outcome = Ok(
                Connection {
                    exchange: Exchange::id(),
                    handshake,
                    keepalive: Exchange::ping_interval(),
                },
            );
            assert(connects(outcome, *signer, distinct@));
            outcome
        },
        Err(error) => {
            let outcome = Err(DataError::Socket(error));
            assert(connects(outcome, *signer, distinct@));
            outcome
        },
    }
}

/// The exchanges of a registry of channels after a channel for one more
/// exchange was asked for: the exchange joins the others at the end unless it
/// is among them.
pub open spec fn with_channel(channels: Seq<ExchangeId>, exchange: ExchangeId) -> Seq<ExchangeId> {
    if channels.contains(exchange) {
        channels
    } else {
        channels.push(exchange)
    }
}

/// True when no exchange stands twice in the run.
pub open spec fn no_channel_twice(channels: Seq<ExchangeId>) -> bool {
    forall|i: int, j: int| 0 <= i < j < channels.len() ==> channels[i] != channels[j]
}

/// Asks for the channel of an exchange: one is made unless there is one.
pub fn open_channel(channels: &mut Vec<ExchangeId>, exchange: ExchangeId)
    ensures
        final(channels)@ == with_channel(old(channels)@, exchange),
        no_channel_twice(old(channels)@) ==> no_channel_twice(final(channels)@),
{
    let mut i: usize = 0;
    while i < channels.len()
        invariant
            i <= channels@.len(),
            channels@ == old(channels)@,
            forall|j: int| 0 <= j < i ==> channels@[j] != exchange,
        decreases channels@.len() - i,
    {
        if channels[i] == exchange {
            return ;
        }
        i = i + 1;
    }
    channels.push(exchange);
}

/// What is to be done to start the streams that were asked for: the
/// exchanges that get a stream each, and the sockets to open, each with the
/// exchange into whose stream its events go.
#[derive(Debug)]
pub struct Setup {
    pub exchanges: Vec<ExchangeId>,
    pub connections: Vec<Connection>,
}

/// True when the batches before the given place all came to a connection.
pub open spec fn all_connect(futures: Seq<Result<Connection, DataError>>, count: int) -> bool {
    forall|i: int| 0 <= i < count ==> (#[trigger] futures[i]) is Ok
}

/// What the batches of a builder come to together. If one of them came to an
/// error nothing is started and the error of the first such batch comes back.
/// Else every batch is started: there is a stream for each exchange of the
/// registry and a connection for each batch, in the order of the batches.
pub open spec fn starts(
    started: Result<Setup, DataError>,
    channels: Seq<ExchangeId>,
    futures: Seq<Result<Connection, DataError>>,
) -> bool {
    match started {
        Ok(setup) => setup.exchanges@ == channels && setup.connections@.len() == futures.len()
            && forall|i: int|
            0 <= i < futures.len() ==> #[trigger] futures[i] == Ok::<Connection, DataError>(
                setup.connections@[i],
            ),
        Err(error) => exists|at: int| #[trigger] fails_first_at(futures, at, error),
    }
}

/// True when the batch at the given place is the first that came to an
/// error, and came to this one.
pub open spec fn fails_first_at(
    futures: Seq<Result<Connection, DataError>>,
    at: int,
    error: DataError,
) -> bool {
    0 <= at < futures.len() && all_connect(futures, at) && futures[at] == Err::<
        Connection,
        DataError,
    >(error)
}

/// Starts what the batches of a builder come to (see [`starts`]).
pub fn start(channels: Vec<ExchangeId>, futures: Vec<Result<Connection, DataError>>) -> (started:
    Result<Setup, DataError>)
    ensures
        starts(started, channels@, futures@),
{
    let ghost all = futures@;
    let mut stack = reversed(futures);
    let mut connections: Vec<Connection> = Vec::new();
    while stack.len() > 0
        invariant
            all == futures@,
            connections@.len() + stack@.len() == all.len(),
            forall|j: int| 0 <= j < stack@.len() ==> stack@[j] == all[all.len() - 1 - j],
            forall|i: int|
                0 <= i < connections@.len() ==> #[trigger] all[i] == Ok::<Connection, DataError>(
                    connections@[i],
                ),
        decreases stack@.len(),
    {
        let ghost at = connections@.len() as int;
        match stack.pop().unwrap() {
            Ok(connection) => {
                connections.push(connection);
            },
            Err(error) => {
                assert(fails_first_at(all, at, error));
                return Err(error);
            },
        }
    }
    Ok(Setup { exchanges: channels, connections })
}

/// Sets up the streams of events of one kind. Batches of subscriptions are
/// registered one after the other, each for a socket of its own; nothing
/// happens on a socket before [`StreamBuilder::init`].
#[derive(Debug)]
pub struct StreamBuilder<Kind> {
    pub channels: Vec<ExchangeId>,
    pub futures: Vec<SubscribeFuture>,
    pub signer: Option<Signer>,
    pub phantom: PhantomData<Kind>,
}

impl<Kind: SubKind> StreamBuilder<Kind> {
    /// A builder with nothing registered and without credentials.
    pub fn new() -> (builder: Self)
        ensures
            builder.channels@.len() == 0,
            builder.futures@.len() == 0,
            builder.signer.is_none(),
    {
        StreamBuilder {
            channels: Vec::new(),
            futures: Vec::new(),
            signer: None,
            phantom: PhantomData,
        }
    }

    /// Sets the credentials with which the batches that are registered from
    /// now on log in.
    pub fn signer(self, signer: Option<Signer>) -> (builder: Self)
        ensures
            builder.channels == self.channels,
            builder.futures == self.futures,
            builder.signer == signer,
    {
        StreamBuilder {
            channels: self.channels,
            futures: self.futures,
            signer,
            phantom: PhantomData,
        }
    }

    /// Registers a batch of subscriptions to one exchange, for a socket of
    /// its own. The exchange gets a channel unless it has one, whatever the
    /// batch comes to; what the batch comes to is kept for
    /// [`StreamBuilder::init`] (see [`registers`]).
    pub fn subscribe<Exchange>(self, subscriptions: Vec<Subscription<Exchange, Kind>>) -> (builder:
        Self) where
        Exchange: StreamSelector<Kind>,
        Subscription<Exchange, Kind>: Identifier<Exchange::Channel> + Identifier<Exchange::Market>,

        ensures
            builder.signer == self.signer,
            builder.channels@ == with_channel(self.channels@, Exchange::exchange()),
            no_channel_twice(self.channels@) ==> no_channel_twice(builder.channels@),
            builder.futures@.len() == self.futures@.len() + 1,
            builder.futures@.drop_last() == self.futures@,
            registers(builder.futures@.last(), self.signer, subscriptions@),
    {
        let mut channels = self.channels;
        let mut futures = self.futures;
        let ghost before = futures@;
        open_channel(&mut channels, Exchange::id());
        let outcome = connection::<Exchange, Kind>(&self.signer, subscriptions);
        futures.push(outcome);
        assert(futures@.drop_last() =~= before);
        StreamBuilder { channels, futures, signer: self.signer, phantom: PhantomData }
    }

    /// Ends the registration. Fails with the error of the first batch that
    /// came to one, and then starts nothing; else tells what to start (see
    /// [`starts`]).
    pub fn init(self) -> (started: Result<Setup, DataError>)
        ensures
            starts(started, self.channels@, self.futures@),
    {
        start(self.channels, self.futures)
    }
}

/// An empty batch of subscriptions comes to an error, and to no connection:
/// nothing of it reaches a socket.
pub proof fn law_empty_batch_is_refused<Exchange, Kind>(
    outcome: Result<Connection, DataError>,
    signer: Option<Signer>,
    subscriptions: Seq<Subscription<Exchange, Kind>>,
) where
    Exchange: StreamSelector<Kind>,
    Kind: SubKind,
    Subscription<Exchange, Kind>: Identifier<Exchange::Channel> + Identifier<Exchange::Market>,

    requires
        subscriptions.len() == 0,
        registers(outcome, signer, subscriptions),
    ensures
        outcome matches Err(DataError::Socket(SocketError::Subscribe(_))),
{
}

/// A batch with a subscription whose kind of instrument the exchange does
/// not list comes to an error, and to no connection: nothing of it reaches a
/// socket.
pub proof fn law_unsupported_batch_is_refused<Exchange, Kind>(
    outcome: Result<Connection, DataError>,
    signer: Option<Signer>,
    subscriptions: Seq<Subscription<Exchange, Kind>>,
    at: int,
) where
    Exchange: StreamSelector<Kind>,
    Kind: SubKind,
    Subscription<Exchange, Kind>: Identifier<Exchange::Channel> + Identifier<Exchange::Market>,

    requires
        0 <= at < subscriptions.len(),
        !supported(Exchange::exchange(), subscriptions[at].instrument.kind),
        registers(outcome, signer, subscriptions),
    ensures
        outcome matches Err(DataError::Socket(SocketError::Unsupported { entity, item }))
            && entity == Exchange::exchange() && !supported(entity, item),
{
}

/// The subscriptions that are sent for a batch are exactly the distinct
/// ones of the batch: two batches that hold the same instruments, however
/// often and in whatever order, are sent as the same run of instruments.
pub proof fn law_sent_subscriptions_are_the_distinct_ones<Exchange, Kind>(
    first: Seq<Subscription<Exchange, Kind>>,
    second: Seq<Subscription<Exchange, Kind>>,
    sent_for_first: Seq<Subscription<Exchange, Kind>>,
    sent_for_second: Seq<Subscription<Exchange, Kind>>,
)
    requires
        forall|i: int| 0 <= i < first.len() ==> asks_for(second, (#[trigger] first[i]).instrument@),
        forall|i: int| 0 <= i < second.len() ==> asks_for(first, (#[trigger] second[i]).instrument@),
        is_sorted_without_duplicates(sent_for_first, first),
        is_sorted_without_duplicates(sent_for_second, second),
    ensures
        sent_for_first.len() == sent_for_second.len(),
        forall|i: int|
            0 <= i < sent_for_first.len() ==> sent_for_first[i].instrument@
                == sent_for_second[i].instrument@,
{
    lemma_same_instruments(sent_for_first, first, second, sent_for_second);
    lemma_same_instruments(sent_for_second, second, first, sent_for_first);
    lemma_sorted_alike(sent_for_first, sent_for_second);
}

proof fn lemma_same_instruments<Exchange, Kind>(
    sent: Seq<Subscription<Exchange, Kind>>,
    batch: Seq<Subscription<Exchange, Kind>>,
    other: Seq<Subscription<Exchange, Kind>>,
    sent_for_other: Seq<Subscription<Exchange, Kind>>,
)
    requires
        is_sorted_without_duplicates(sent, batch),
        is_sorted_without_duplicates(sent_for_other, other),
        forall|i: int| 0 <= i < batch.len() ==> asks_for(other, (#[trigger] batch[i]).instrument@),
    ensures
        forall|i: int|
            0 <= i < sent.len() ==> asks_for(sent_for_other, (#[trigger] sent[i]).instrument@),
{
    assert forall|i: int| 0 <= i < sent.len() implies asks_for(
        sent_for_other,
        (#[trigger] sent[i]).instrument@,
    ) by {
        assert(is_among(sent[i], batch));
        let k = choose|k: int| 0 <= k < batch.len() && #[trigger] batch[k] == sent[i];
        assert(asks_for(other, batch[k].instrument@));
        let m = choose|m: int|
            0 <= m < other.len() && (#[trigger] other[m]).instrument@ == batch[k].instrument@;
        assert(asks_for(sent_for_other, other[m].instrument@));
    }
}

proof fn lemma_sorted_alike<Exchange, Kind>(
    first: Seq<Subscription<Exchange, Kind>>,
    second: Seq<Subscription<Exchange, Kind>>,
)
    requires
        strictly_sorted(first),
        strictly_sorted(second),
        forall|i: int| 0 <= i < first.len() ==> asks_for(second, (#[trigger] first[i]).instrument@),
        forall|i: int| 0 <= i < second.len() ==> asks_for(first, (#[trigger] second[i]).instrument@),
    ensures
        first.len() == second.len(),
        forall|i: int| 0 <= i < first.len() ==> first[i].instrument@ == second[i].instrument@,
    decreases first.len(),
{
    if first.len() == 0 {
        if second.len() > 0 {
            assert(asks_for(first, second[0].instrument@));
        }
    } else if second.len() == 0 {
        assert(asks_for(second, first[0].instrument@));
    } else {
        let a = first.last();
        let b = second.last();
        assert(a == first[first.len() - 1]);
        assert(b == second[second.len() - 1]);
        // The greatest instrument of either run is the greatest of the other.
        assert(asks_for(second, a.instrument@));
        let ka = choose|k: int| 0 <= k < second.len() && (#[trigger] second[k]).instrument@ == a.instrument@;
        assert(asks_for(first, b.instrument@));
        let kb = choose|k: int| 0 <= k < first.len() && (#[trigger] first[k]).instrument@ == b.instrument@;
        lemma_instrument_before_irreflexive(a.instrument@);
        lemma_instrument_before_irreflexive(b.instrument@);
        if a.instrument@ != b.instrument@ {
            // Else each stands before the end of the other run, and so before
            // the other: a contradiction.
            assert(ka < second.len() - 1);
            assert(kb < first.len() - 1);
            assert(instrument_before(second[ka].instrument@, b.instrument@));
            assert(instrument_before(first[kb].instrument@, a.instrument@));
            lemma_instrument_before_transitive(a.instrument@, b.instrument@, a.instrument@);
        }
        let shorter_first = first.drop_last();
        let shorter_second = second.drop_last();
        assert forall|i: int| 0 <= i < shorter_first.len() implies asks_for(
            shorter_second,
            (#[trigger] shorter_first[i]).instrument@,
        ) by {
            assert(shorter_first[i] == first[i]);
            assert(asks_for(second, first[i].instrument@));
            let k = choose|k: int| 0 <= k < second.len() && (#[trigger] second[k]).instrument@ == first[i].instrument@;
            assert(instrument_before(first[i].instrument@, a.instrument@));
            if k == second.len() - 1 {
                assert(false);
            }
            assert(shorter_second[k] == second[k]);
        }
        assert forall|i: int| 0 <= i < shorter_second.len() implies asks_for(
            shorter_first,
            (#[trigger] shorter_second[i]).instrument@,
        ) by {
            assert(shorter_second[i] == second[i]);
            assert(asks_for(first, second[i].instrument@));
            let k = choose|k: int| 0 <= k < first.len() && (#[trigger] first[k]).instrument@ == second[i].instrument@;
            assert(instrument_before(second[i].instrument@, b.instrument@));
            if k == first.len() - 1 {
                assert(false);
            }
            assert(shorter_first[k] == first[k]);
        }
        assert forall|i: int, j: int| 0 <= i < j < shorter_first.len() implies instrument_before(
            (#[trigger] shorter_first[i]).instrument@,
            (#[trigger] shorter_first[j]).instrument@,
        ) by {
            assert(shorter_first[i] == first[i]);
            assert(shorter_first[j] == first[j]);
        }
        assert forall|i: int, j: int| 0 <= i < j < shorter_second.len() implies instrument_before(
            (#[trigger] shorter_second[i]).instrument@,
            (#[trigger] shorter_second[j]).instrument@,
        ) by {
            assert(shorter_second[i] == second[i]);
            assert(shorter_second[j] == second[j]);
        }
        lemma_sorted_alike(shorter_first, shorter_second);
        assert forall|i: int| 0 <= i < first.len() implies first[i].instrument@ == second[i].instrument@ by {
            if i < first.len() - 1 {
                assert(shorter_first[i] == first[i]);
                assert(shorter_second[i] == second[i]);
            }
        }
    }
}

/// One batch that comes to an error fails the whole: whatever else was
/// registered, nothing is started.
pub proof fn law_one_error_fails_all(
    started: Result<Setup, DataError>,
    channels: Seq<ExchangeId>,
    futures: Seq<Result<Connection, DataError>>,
    at: int,
)
    requires
        0 <= at < futures.len(),
        futures[at] is Err,
        starts(started, channels, futures),
    ensures
        started is Err,
{
}

/// Where every batch comes to a connection everything is started: one
/// stream for each exchange that a batch was registered for, and one
/// connection for each batch.
pub proof fn law_all_connections_start(
    started: Result<Setup, DataError>,
    channels: Seq<ExchangeId>,
    futures: Seq<Result<Connection, DataError>>,
)
    requires
        all_connect(futures, futures.len() as int),
        starts(started, channels, futures),
    ensures
        started matches Ok(setup) && setup.exchanges@ == channels && setup.connections@.len()
            == futures.len(),
{
    if started is Err {
        let error = started->Err_0;
        let at = choose|at: int| #[trigger] fails_first_at(futures, at, error);
        assert(futures[at] is Ok);
    }
}

} // verus!
