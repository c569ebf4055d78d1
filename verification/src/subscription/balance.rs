//! Balances and positions of an account.

use crate::model::Number;
use crate::subscription::SubKind;
use vstd::prelude::*;

verus! {

/// The kind of subscription that yields [`Balance`] events.
#[derive(Clone, Copy, Debug, PartialEq, Eq, Structural)]
pub struct Balances;

impl SubKind for Balances {
    type Event = Balance;
}

/// The balances and positions of an account after an event on it.
#[derive(Clone, Debug, PartialEq)]
pub struct Balance {
    pub p_time: String,
    pub event_type: String,
    pub bal_data: Vec<BalanceData>,
    pub pos_data: Vec<PositionData>,
    pub trades: Vec<Trade>,
}

/// The cash balance in one currency.
#[derive(Clone, Debug, PartialEq)]
pub struct BalanceData {
    pub ccy: String,
    pub cash_bal: Number,
    pub u_time: i64,
}

/// One position of an account.
#[derive(Clone, Debug, PartialEq)]
pub struct PositionData {
    pub pos_id: String,
    pub avg_px: Number,
    pub base_bal: Number,
    pub ccy: String,
    pub inst_id: String,
    pub inst_type: String,
    pub mgn_mode: String,
    pub pos: Number,
    pub pos_ccy: String,
    pub pos_side: String,
    pub quote_bal: String,
    pub trade_id: String,
    pub u_time: i64,
}

/// The trade that changed a balance or a position.
#[derive(Clone, Debug, PartialEq)]
pub struct Trade {
    pub inst_id: String,
    pub trade_id: String,
}

} // verus!
