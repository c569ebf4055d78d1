//! Public trades.

use crate::model::{Number, Side};
use crate::subscription::SubKind;
use vstd::prelude::*;

verus! {

/// The kind of subscription that yields [`PublicTrade`] events.
#[derive(Clone, Copy, Debug, PartialEq, Eq, Structural)]
pub struct PublicTrades;

impl SubKind for PublicTrades {
    type Event = PublicTrade;
}

/// A trade between two parties on an exchange.
#[derive(Clone, Debug, PartialEq)]
pub struct PublicTrade {
    pub id: String,
    pub price: Number,
    pub amount: Number,
    pub side: Side,
}

} // verus!
