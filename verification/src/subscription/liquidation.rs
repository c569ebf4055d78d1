//! Liquidations.

use crate::model::{Number, Side, Timestamp};
use crate::subscription::SubKind;
use vstd::prelude::*;

verus! {

/// The kind of subscription that yields [`Liquidation`] events.
#[derive(Clone, Copy, Debug, PartialEq, Eq, Structural)]
pub struct Liquidations;

impl SubKind for Liquidations {
    type Event = Liquidation;
}

/// A forced close of a position.
#[derive(Clone, Copy, Debug, PartialEq, Eq, Structural)]
pub struct Liquidation {
    pub side: Side,
    pub price: Number,
    pub quantity: Number,
    pub time: Timestamp,
}

} // verus!
