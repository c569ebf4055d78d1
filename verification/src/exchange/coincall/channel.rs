//! The channels of Coincall.

use crate::exchange::coincall::Coincall;
use crate::subscription::book::OrderBooksL1;
use crate::subscription::mark_price::MarkPrices;
use crate::subscription::option_summary::OptionSummaries;
use crate::subscription::trade::PublicTrades;
use crate::subscription::Subscription;
use crate::{Identifier, Named};
use vstd::prelude::*;

verus! {

/// The name of a channel of Coincall.
#[derive(Clone, Copy, Debug, PartialEq, Eq)]
pub struct CoincallChannel(pub &'static str);

impl CoincallChannel {
    /// Trades as they happen.
    pub fn trades() -> (channel: Self)
        ensures
            channel.name() == "trades"@,
    {
        CoincallChannel("trades")
    }

    /// Best bid and best ask.
    pub fn order_book_l1() -> (channel: Self)
        ensures
            channel.name() == "tickers"@,
    {
        CoincallChannel("tickers")
    }

    /// Mark prices.
    pub fn mark_price() -> (channel: Self)
        ensures
            channel.name() == "mark-price"@,
    {
        CoincallChannel("mark-price")
    }

    /// Summaries of the options on one underlying.
    pub fn option_summary() -> (channel: Self)
        ensures
            channel.name() == "opt-summary"@,
    {
        CoincallChannel("opt-summary")
    }
}

impl Named for CoincallChannel {
    open spec fn name(&self) -> Seq<char> {
        self.0@
    }

    fn as_ref(&self) -> (text: &str) {
        self.0
    }
}

impl Identifier<CoincallChannel> for Subscription<Coincall, PublicTrades> {
    open spec fn id_name(&self) -> Seq<char> {
        "trades"@
    }

    fn id(&self) -> (id: CoincallChannel) {
        CoincallChannel::trades()
    }
}

impl Identifier<CoincallChannel> for Subscription<Coincall, OrderBooksL1> {
    open spec fn id_name(&self) -> Seq<char> {
        "tickers"@
    }

    fn id(&self) -> (id: CoincallChannel) {
        CoincallChannel::order_book_l1()
    }
}

impl Identifier<CoincallChannel> for Subscription<Coincall, MarkPrices> {
    open spec fn id_name(&self) -> Seq<char> {
        "mark-price"@
    }

    fn id(&self) -> (id: CoincallChannel) {
        CoincallChannel::mark_price()
    }
}

impl Identifier<CoincallChannel> for Subscription<Coincall, OptionSummaries> {
    open spec fn id_name(&self) -> Seq<char> {
        "opt-summary"@
    }

    fn id(&self) -> (id: CoincallChannel) {
        CoincallChannel::option_summary()
    }
}

} // verus!
