//! Order books.

use crate::model::{Number, Timestamp};
use crate::subscription::SubKind;
use vstd::prelude::*;

verus! {

/// The kind of subscription that yields [`OrderBookL1`] events.
#[derive(Clone, Copy, Debug, PartialEq, Eq, Structural)]
pub struct OrderBooksL1;

impl SubKind for OrderBooksL1 {
    type Event = OrderBookL1;
}

/// The kind of subscription that yields [`OrderBook`] events.
#[derive(Clone, Copy, Debug, PartialEq, Eq, Structural)]
pub struct OrderBooksL2;

impl SubKind for OrderBooksL2 {
    type Event = OrderBook;
}

/// A price and the amount offered at it.
#[derive(Clone, Copy, Debug, PartialEq, Eq, Structural)]
pub struct Level {
    pub price: Number,
    pub amount: Number,
}

/// The best bid and the best ask of a book.
#[derive(Clone, Copy, Debug, PartialEq, Eq, Structural)]
pub struct OrderBookL1 {
    pub last_update_time: Timestamp,
    pub best_bid: Level,
    pub best_ask: Level,
}

/// The levels of a book, best first on each side.
#[derive(Clone, Debug, PartialEq)]
pub struct OrderBook {
    pub last_update_time: Timestamp,
    pub bids: Vec<Level>,
    pub asks: Vec<Level>,
}

} // verus!
