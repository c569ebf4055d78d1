//! Streams of market events, one per exchange.

use crate::exchange::ExchangeId;
use crate::streams::builder::multi::MultiStreamBuilder;
use crate::streams::builder::StreamBuilder;
use crate::subscription::SubKind;
use vstd::prelude::*;

pub mod builder;
pub mod consumer;

verus! {

/// True when no exchange stands twice in the run of entries.
pub open spec fn distinct_exchanges<T>(entries: Seq<(ExchangeId, T)>) -> bool {
    forall|i: int, j: int|
        0 <= i < j < entries.len() ==> (#[trigger] entries[i]).0 != (#[trigger] entries[j]).0
}

/// The map that a run of entries with distinct exchanges stands for.
pub open spec fn entries_map<T>(entries: Seq<(ExchangeId, T)>) -> Map<ExchangeId, T> {
    Map::new(
        |exchange: ExchangeId|
            exists|i: int| 0 <= i < entries.len() && (#[trigger] entries[i]).0 == exchange,
        |exchange: ExchangeId|
            entries[choose|i: int|
                0 <= i < entries.len() && (#[trigger] entries[i]).0 == exchange].1,
    )
}

/// What a caller holds of the streams that were set up: for each exchange
/// one receiving end, the stream of the events of that exchange.
#[derive(Debug)]
pub struct Streams<T> {
    streams: Vec<(ExchangeId, T)>,
}

impl<T> View for Streams<T> {
    type V = Map<ExchangeId, T>;

    closed spec fn view(&self) -> Map<ExchangeId, T> {
        entries_map(self.streams@)
    }
}

impl<T> Streams<T> {
    #[verifier::type_invariant]
    spec fn wf(&self) -> bool {
        distinct_exchanges(self.streams@)
    }

    /// A builder of streams of events of one kind.
    pub fn builder<Kind: SubKind>() -> (builder: StreamBuilder<Kind>)
        ensures
            builder.channels@.len() == 0,
            builder.futures@.len() == 0,
            builder.signer.is_none(),
    {
        StreamBuilder::new()
    }

    /// A builder of streams that merge events of several kinds.
    pub fn builder_multi() -> (builder: MultiStreamBuilder<T>)
        ensures
            builder.channels@.len() == 0,
            builder.futures@.len() == 0,
    {
        MultiStreamBuilder::new()
    }

    /// No streams.
    pub fn new() -> (streams: Self)
        ensures
            streams@ == Map::<ExchangeId, T>::empty(),
    {
        let streams = Streams { streams: Vec::new() };
        assert(streams@ =~= Map::<ExchangeId, T>::empty());
        streams
    }

    /// The number of exchanges that have a stream.
    pub fn len(&self) -> (len: usize)
        ensures
            self@.dom().finite(),
            len == self@.dom().len(),
    {
        proof {
            use_type_invariant(self);
            lemma_entries_len(self.streams@);
        }
        self.streams.len()
    }

    fn position(&self, exchange: ExchangeId) -> (at: Option<usize>)
        ensures
            match at {
                Some(at) => at < self.streams@.len() && self.streams@[at as int].0 == exchange,
                None => forall|i: int|
                    0 <= i < self.streams@.len() ==> (#[trigger] self.streams@[i]).0 != exchange,
            },
    {
        let mut i: usize = 0;
        while i < self.streams.len()
            invariant
                i <= self.streams@.len(),
                forall|j: int| 0 <= j < i ==> (#[trigger] self.streams@[j]).0 != exchange,
            decreases self.streams@.len() - i,
        {
            if self.streams[i].0 == exchange {
                return Some(i);
            }
            i = i + 1;
        }
        None
    }

    /// Puts the stream of an exchange among the streams. Where the exchange
    /// has a stream already nothing changes and the new stream comes back.
    pub fn insert(&mut self, exchange: ExchangeId, stream: T) -> (refused: Option<T>)
        ensures
            match refused {
                Some(refused) => old(self)@.dom().contains(exchange) && refused == stream
                    && final(self)@ == old(self)@,
                None => !old(self)@.dom().contains(exchange) && final(self)@ == old(self)@.insert(
                    exchange,
                    stream,
                ),
            },
    {
        proof {
            use_type_invariant(&*self);
        }
        let ghost before = self.streams@;
        match self.position(exchange) {
            Some(at) => {
                assert(before[at as int].0 == exchange);
                Some(stream)
            },
            None => {
                let mut held = Streams::new();
                core::mem::swap(self, &mut held);
                let mut entries = held.streams;
                entries.push((exchange, stream));
                proof {
                    lemma_entries_push(before, exchange, stream);
                }
                *self = Streams { streams: entries };
                None
            },
        }
    }

    /// Hands out all the streams, each with its exchange.
    pub fn into_entries(self) -> (entries: Vec<(ExchangeId, T)>)
        ensures
            distinct_exchanges(entries@),
            entries_map(entries@) == self@,
    {
        proof {
            use_type_invariant(&self);
        }
        self.streams
    }

    /// Takes the stream of an exchange out of the streams, if there is one.
    pub fn select(&mut self, exchange: ExchangeId) -> (stream: Option<T>)
        ensures
            match stream {
                Some(stream) => old(self)@.dom().contains(exchange) && stream == old(
                    self,
                )@[exchange] && final(self)@ == old(self)@.remove(exchange),
                None => !old(self)@.dom().contains(exchange) && final(self)@ == old(self)@,
            },
    {
        proof {
            use_type_invariant(&*self);
        }
        let ghost before = self.streams@;
        match self.position(exchange) {
            Some(at) => {
                let mut held = Streams::new();
                core::mem::swap(self, &mut held);
                let mut entries = held.streams;
                let entry = entries.remove(at);
                proof {
                    lemma_entries_remove(before, at as int);
                }
                *self = Streams { streams: entries };
                Some(entry.1)
            },
            None => {
                None
            },
        }
    }
}

proof fn lemma_entries_at<T>(entries: Seq<(ExchangeId, T)>, at: int)
    requires
        distinct_exchanges(entries),
        0 <= at < entries.len(),
    ensures
        entries_map(entries).dom().contains(entries[at].0),
        entries_map(entries)[entries[at].0] == entries[at].1,
{
    let exchange = entries[at].0;
    let found = choose|i: int| 0 <= i < entries.len() && (#[trigger] entries[i]).0 == exchange;
    assert(found == at);
}

proof fn lemma_entries_push<T>(entries: Seq<(ExchangeId, T)>, exchange: ExchangeId, stream: T)
    requires
        distinct_exchanges(entries),
        forall|i: int| 0 <= i < entries.len() ==> (#[trigger] entries[i]).0 != exchange,
    ensures
        distinct_exchanges(entries.push((exchange, stream))),
        entries_map(entries.push((exchange, stream))) == entries_map(entries).insert(
            exchange,
            stream,
        ),
        !entries_map(entries).dom().contains(exchange),
{
    let longer = entries.push((exchange, stream));
    assert(distinct_exchanges(longer));
    assert forall|key: ExchangeId| #[trigger]
        entries_map(longer).dom().contains(key) == entries_map(entries).insert(
            exchange,
            stream,
        ).dom().contains(key) by {
        if key == exchange {
            assert(longer[entries.len() as int].0 == exchange);
        } else {
            if entries_map(longer).dom().contains(key) {
                let i = choose|i: int| 0 <= i < longer.len() && (#[trigger] longer[i]).0 == key;
                assert(entries[i].0 == key);
            }
            if entries_map(entries).dom().contains(key) {
                let i = choose|i: int| 0 <= i < entries.len() && (#[trigger] entries[i]).0 == key;
                assert(longer[i].0 == key);
            }
        }
    }
    assert forall|key: ExchangeId| #[trigger]
        entries_map(longer).dom().contains(key) implies entries_map(longer)[key] == entries_map(
        entries,
    ).insert(exchange, stream)[key] by {
        let i = choose|i: int| 0 <= i < longer.len() && (#[trigger] longer[i]).0 == key;
        lemma_entries_at(longer, i);
        if key != exchange {
            assert(entries[i].0 == key);
            lemma_entries_at(entries, i);
        }
    }
    assert(entries_map(longer) =~= entries_map(entries).insert(exchange, stream));
}

proof fn lemma_entries_remove<T>(entries: Seq<(ExchangeId, T)>, at: int)
    requires
        distinct_exchanges(entries),
        0 <= at < entries.len(),
    ensures
        distinct_exchanges(entries.remove(at)),
        entries_map(entries).dom().contains(entries[at].0),
        entries_map(entries)[entries[at].0] == entries[at].1,
        entries_map(entries.remove(at)) == entries_map(entries).remove(entries[at].0),
{
    let shorter = entries.remove(at);
    let exchange = entries[at].0;
    lemma_entries_at(entries, at);
    assert forall|i: int, j: int| 0 <= i < j < shorter.len() implies (#[trigger] shorter[i]).0 != (
    #[trigger] shorter[j]).0 by {
        let a = if i < at { i } else { i + 1 };
        let b = if j < at { j } else { j + 1 };
        assert(shorter[i] == entries[a]);
        assert(shorter[j] == entries[b]);
    }
    assert forall|key: ExchangeId| #[trigger]
        entries_map(shorter).dom().contains(key) == entries_map(entries).remove(
            exchange,
        ).dom().contains(key) by {
        if entries_map(shorter).dom().contains(key) {
            let i = choose|i: int| 0 <= i < shorter.len() && (#[trigger] shorter[i]).0 == key;
            let a = if i < at { i } else { i + 1 };
            assert(shorter[i] == entries[a]);
            assert(entries[a].0 == key);
        }
        if entries_map(entries).remove(exchange).dom().contains(key) {
            let i = choose|i: int| 0 <= i < entries.len() && (#[trigger] entries[i]).0 == key;
            let a = if i < at { i } else { i - 1 };
            assert(shorter[a] == entries[i]);
            assert(shorter[a].0 == key);
        }
    }
    assert forall|key: ExchangeId| #[trigger]
        entries_map(shorter).dom().contains(key) implies entries_map(shorter)[key] == entries_map(
        entries,
    ).remove(exchange)[key] by {
        let i = choose|i: int| 0 <= i < shorter.len() && (#[trigger] shorter[i]).0 == key;
        let a = if i < at { i } else { i + 1 };
        assert(shorter[i] == entries[a]);
        lemma_entries_at(shorter, i);
        lemma_entries_at(entries, a);
    }
    assert(entries_map(shorter) =~= entries_map(entries).remove(exchange));
}

proof fn lemma_entries_len<T>(entries: Seq<(ExchangeId, T)>)
    requires
        distinct_exchanges(entries),
    ensures
        entries_map(entries).dom().finite(),
        entries_map(entries).dom().len() == entries.len(),
    decreases entries.len(),
{
    if entries.len() == 0 {
        assert(entries_map(entries).dom() =~= Set::<ExchangeId>::empty());
    } else {
        let shorter = entries.drop_last();
        let last = entries.last();
        assert forall|i: int, j: int| 0 <= i < j < shorter.len() implies (#[trigger] shorter[i]).0
            != (#[trigger] shorter[j]).0 by {
            assert(shorter[i] == entries[i]);
            assert(shorter[j] == entries[j]);
        }
        assert forall|i: int| 0 <= i < shorter.len() implies (#[trigger] shorter[i]).0
            != last.0 by {
            assert(shorter[i] == entries[i]);
            assert(last == entries[entries.len() - 1]);
        }
        lemma_entries_len(shorter);
        lemma_entries_push(shorter, last.0, last.1);
        assert(shorter.push((last.0, last.1)) =~= entries);
    }
}

} // verus!
