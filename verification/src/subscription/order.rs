//! Orders of an account.

use crate::model::{Number, Side};
use crate::subscription::SubKind;
use vstd::prelude::*;

verus! {

/// The kind of subscription that yields [`PrivateOrder`] events.
#[derive(Clone, Copy, Debug, PartialEq, Eq, Structural)]
pub struct PrivateOrders;

impl SubKind for PrivateOrders {
    type Event = PrivateOrder;
}

/// The state of one order of an account.
#[derive(Clone, Debug, PartialEq)]
pub struct PrivateOrder {
    pub inst_id: String,
    pub ccy: String,
    pub order_id: String,
    pub client_order_id: String,
    pub price: Number,
    pub fill_price: Number,
    pub fill_size: Number,
    pub fill_time: i64,
    pub acc_fill_size: Number,
    pub order_state: String,
    pub price_usd: Option<Number>,
    pub price_vol: Option<Number>,
    pub amount: Number,
    pub side: Side,
    pub pos_side: Side,
    pub order_type: String,
    pub u_time: i64,
    pub c_time: i64,
    pub amend_result: String,
}

} // verus!
