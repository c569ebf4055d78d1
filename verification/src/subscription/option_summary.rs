//! Summaries of options.

use crate::model::{Number, Timestamp};
use crate::subscription::SubKind;
use vstd::prelude::*;

verus! {

/// The kind of subscription that yields [`OptionSummary`] events.
#[derive(Clone, Copy, Debug, PartialEq, Eq, Structural)]
pub struct OptionSummaries;

impl SubKind for OptionSummaries {
    type Event = OptionSummary;
}

/// The greeks and volatilities of one option.
#[derive(Clone, Debug, PartialEq)]
pub struct OptionSummary {
    pub inst_id: String,
    pub underlying: String,
    pub ts: Timestamp,
    pub foward_px: Number,
    pub delta: Number,
    pub gamma: Number,
    pub theta: Number,
    pub vega: Number,
    pub mark_vol: Number,
    pub atm_vol: Number,
}

} // verus!
