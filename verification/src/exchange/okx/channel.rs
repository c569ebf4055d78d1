//! The channels of Okx.

use crate::exchange::okx::Okx;
use crate::subscription::balance::Balances;
use crate::subscription::book::OrderBooksL1;
use crate::subscription::mark_price::MarkPrices;
use crate::subscription::option_summary::OptionSummaries;
use crate::subscription::trade::PublicTrades;
use crate::subscription::Subscription;
use crate::{Identifier, Named};
use vstd::prelude::*;

verus! {

/// The name of a channel of Okx.
#[derive(Clone, Copy, Debug, PartialEq, Eq)]
pub struct OkxChannel(pub &'static str);

impl OkxChannel {
    /// Trades as they happen.
    pub fn trades() -> (channel: Self)
        ensures
            channel.name() == "trades"@,
    {
        OkxChannel("trades")
    }

    /// Best bid and best ask.
    pub fn order_book_l1() -> (channel: Self)
        ensures
            channel.name() == "tickers"@,
    {
        OkxChannel("tickers")
    }

    /// Mark prices.
    pub fn mark_price() -> (channel: Self)
        ensures
            channel.name() == "mark-price"@,
    {
        OkxChannel("mark-price")
    }

    /// Summaries of the options on one underlying.
    pub fn option_summary() -> (channel: Self)
        ensures
            channel.name() == "opt-summary"@,
    {
        OkxChannel("opt-summary")
    }

    /// Balances and positions of the account.
    pub fn balance() -> (channel: Self)
        ensures
            channel.name() == "balance_and_position"@,
    {
        OkxChannel("balance_and_position")
    }
}

impl Named for OkxChannel {
    open spec fn name(&self) -> Seq<char> {
        self.0@
    }

    fn as_ref(&self) -> (text: &str) {
        self.0
    }
}

impl Identifier<OkxChannel> for Subscription<Okx, PublicTrades> {
    open spec fn id_name(&self) -> Seq<char> {
        "trades"@
    }

    fn id(&self) -> (id: OkxChannel) {
        OkxChannel::trades()
    }
}

impl Identifier<OkxChannel> for Subscription<Okx, OrderBooksL1> {
    open spec fn id_name(&self) -> Seq<char> {
        "tickers"@
    }

    fn id(&self) -> (id: OkxChannel) {
        OkxChannel::order_book_l1()
    }
}

impl Identifier<OkxChannel> for Subscription<Okx, MarkPrices> {
    open spec fn id_name(&self) -> Seq<char> {
        "mark-price"@
    }

    fn id(&self) -> (id: OkxChannel) {
        OkxChannel::mark_price()
    }
}

impl Identifier<OkxChannel> for Subscription<Okx, OptionSummaries> {
    open spec fn id_name(&self) -> Seq<char> {
        "opt-summary"@
    }

    fn id(&self) -> (id: OkxChannel) {
        OkxChannel::option_summary()
    }
}

impl Identifier<OkxChannel> for Subscription<Okx, Balances> {
    open spec fn id_name(&self) -> Seq<char> {
        "balance_and_position"@
    }

    fn id(&self) -> (id: OkxChannel) {
        OkxChannel::balance()
    }
}

} // verus!
