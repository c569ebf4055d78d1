//! Mark prices.

use crate::model::{Number, Timestamp};
use crate::subscription::SubKind;
use vstd::prelude::*;

verus! {

/// The kind of subscription that yields [`MarkPrice`] events.
#[derive(Clone, Copy, Debug, PartialEq, Eq, Structural)]
pub struct MarkPrices;

impl SubKind for MarkPrices {
    type Event = MarkPrice;
}

/// The mark price of an instrument at an instant.
#[derive(Clone, Copy, Debug, PartialEq, Eq, Structural)]
pub struct MarkPrice {
    pub ts: Timestamp,
    pub px: Number,
}

} // verus!
