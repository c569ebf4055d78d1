//! Account summaries.

use crate::model::Number;
use crate::subscription::SubKind;
use vstd::prelude::*;

verus! {

/// The kind of subscription that yields [`Account`] events.
#[derive(Clone, Copy, Debug, PartialEq, Eq, Structural)]
pub struct Accounts;

impl SubKind for Accounts {
    type Event = Account;
}

/// The state of a trading account.
#[derive(Clone, Debug, PartialEq)]
pub struct Account {
    pub total_eq: Number,
    pub imr: Number,
    pub mmr: Number,
    pub u_time: i32,
}

} // verus!
