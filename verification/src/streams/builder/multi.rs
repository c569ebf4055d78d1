//! Setting up streams that merge events of several kinds.

use crate::error::DataError;
use crate::exchange::ExchangeId;
use crate::streams::builder::{
    no_channel_twice, open_channel, start, starts, with_channel, Setup, StreamBuilder,
    SubscribeFuture,
};
use crate::subscription::SubKind;
use core::marker::PhantomData;
use vstd::prelude::*;

verus! {

/// The exchanges of a registry of channels after a channel was asked for
/// for each of some more exchanges, one after the other.
pub open spec fn with_channels(channels: Seq<ExchangeId>, more: Seq<ExchangeId>) -> Seq<
    ExchangeId,
>
    decreases more.len(),
{
    if more.len() == 0 {
        channels
    } else {
        with_channel(with_channels(channels, more.drop_last()), more.last())
    }
}

/// Sets up streams of events of type `Output` from builders of streams of
/// several kinds: the events of every kind go into the one stream of their
/// exchange.
#[derive(Debug)]
pub struct MultiStreamBuilder<Output> {
    pub channels: Vec<ExchangeId>,
    pub futures: Vec<SubscribeFuture>,
    pub phantom: PhantomData<Output>,
}

impl<Output> MultiStreamBuilder<Output> {
    /// A builder with nothing added.
    pub fn new() -> (builder: Self)
        ensures
            builder.channels@.len() == 0,
            builder.futures@.len() == 0,
    {
        MultiStreamBuilder { channels: Vec::new(), futures: Vec::new(), phantom: PhantomData }
    }

    /// Adds what was registered with a builder of streams of one kind: each
    /// of its exchanges gets a channel here unless it has one, and its
    /// batches follow those that were added before.
    pub fn add<Kind: SubKind>(self, builder: StreamBuilder<Kind>) -> (added: Self)
        ensures
            added.channels@ == with_channels(self.channels@, builder.channels@),
            no_channel_twice(self.channels@) ==> no_channel_twice(added.channels@),
            added.futures@ == self.futures@ + builder.futures@,
    {
        let mut channels = self.channels;
        let mut futures = self.futures;
        let mut more = builder.futures;
        let mut i: usize = 0;
        while i < builder.channels.len()
            invariant
                i <= builder.channels@.len(),
                channels@ == with_channels(self.channels@, builder.channels@.take(i as int)),
                no_channel_twice(self.channels@) ==> no_channel_twice(channels@),
            decreases builder.channels@.len() - i,
        {
            proof {
                let next = builder.channels@.take(i + 1);
                assert(next.drop_last() =~= builder.channels@.take(i as int));
                assert(next.last() == builder.channels@[i as int]);
            }
            open_channel(&mut channels, builder.channels[i]);
            i = i + 1;
        }
        proof {
            assert(builder.channels@.take(builder.channels@.len() as int) =~= builder.channels@);
        }
        futures.append(&mut more);
        MultiStreamBuilder { channels, futures, phantom: PhantomData }
    }

    /// Ends the registration. Fails with the error of the first batch that
    /// came to one, and then starts nothing; else tells what to start.
    pub fn init(self) -> (started: Result<Setup, DataError>)
        ensures
            starts(started, self.channels@, self.futures@),
    {
        start(self.channels, self.futures)
    }
}

} // verus!
