//! The markets of Okx.

use crate::exchange::okx::Okx;
use crate::exchange::{dashed_market, dashed_market_text};
use crate::subscription::Subscription;
use crate::{Identifier, Named};
use vstd::prelude::*;
use vstd::string::*;

verus! {

/// The name of a market of Okx, such as `BTC-USDT` or `BTC-USD-SWAP`.
#[derive(Clone, Debug, PartialEq, Eq)]
pub struct OkxMarket(pub String);

impl Named for OkxMarket {
    open spec fn name(&self) -> Seq<char> {
        self.0@
    }

    fn as_ref(&self) -> (text: &str) {
        self.0.as_str()
    }
}

impl<Kind> Identifier<OkxMarket> for Subscription<Okx, Kind> {
    open spec fn id_name(&self) -> Seq<char> {
        dashed_market(self.instrument@)
    }

    fn id(&self) -> (id: OkxMarket) {
        OkxMarket(dashed_market_text(&self.instrument))
    }
}

} // verus!
