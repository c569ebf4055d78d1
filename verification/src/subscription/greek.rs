//! Greeks of an account.

use crate::model::Number;
use crate::subscription::SubKind;
use vstd::prelude::*;

verus! {

/// The kind of subscription that yields [`Greek`] events.
#[derive(Clone, Copy, Debug, PartialEq, Eq, Structural)]
pub struct Greeks;

impl SubKind for Greeks {
    type Event = Greek;
}

/// The greeks of an account in one currency.
#[derive(Clone, Debug, PartialEq)]
pub struct Greek {
    pub ccy: String,
    pub ts: i32,
    pub theta_bs: Number,
    pub theta_pa: Number,
    pub delta_bs: Number,
    pub delta_pa: Number,
    pub gamma_bs: Number,
    pub gamma_pa: Number,
    pub vega_bs: Number,
    pub vega_pa: Number,
}

} // verus!
