//! Positions of an account.

use crate::model::Side;
use crate::subscription::SubKind;
use vstd::prelude::*;

verus! {

/// The kind of subscription that yields [`Position`] events.
#[derive(Clone, Copy, Debug, PartialEq, Eq, Structural)]
pub struct Positions;

impl SubKind for Positions {
    type Event = Position;
}

/// One position of an account.
#[derive(Clone, Debug, PartialEq)]
pub struct Position {
    pub ccy: String,
    pub c_time: i32,
    pub inst_id: String,
    pub pos_side: Side,
}

} // verus!
