//! Candles.

use crate::model::{Number, Timestamp};
use crate::subscription::SubKind;
use vstd::prelude::*;

verus! {

/// The kind of subscription that yields [`Candle`] events.
#[derive(Clone, Copy, Debug, PartialEq, Eq, Structural)]
pub struct Candles;

impl SubKind for Candles {
    type Event = Candle;
}

/// Open, high, low, close and volume over an interval.
#[derive(Clone, Copy, Debug, PartialEq, Eq, Structural)]
pub struct Candle {
    pub close_time: Timestamp,
    pub open: Number,
    pub high: Number,
    pub low: Number,
    pub close: Number,
    pub volume: Number,
    pub trade_count: u64,
}

} // verus!
