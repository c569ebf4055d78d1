//! The markets of Coincall.

use crate::exchange::coincall::Coincall;
use crate::exchange::{dashed_market, dashed_market_text};
use crate::subscription::Subscription;
use crate::{Identifier, Named};
use vstd::prelude::*;
use vstd::string::*;

verus! {

/// The name of a market of Coincall.
#[derive(Clone, Debug, PartialEq, Eq)]
pub struct CoincallMarket(pub String);

impl Named for CoincallMarket {
    open spec fn name(&self) -> Seq<char> {
        self.0@
    }

    fn as_ref(&self) -> (text: &str) {
        self.0.as_str()
    }
}

impl<Kind> Identifier<CoincallMarket> for Subscription<Coincall, Kind> {
    open spec fn id_name(&self) -> Seq<char> {
        dashed_market(self.instrument@)
    }

    fn id(&self) -> (id: CoincallMarket) {
        CoincallMarket(dashed_market_text(&self.instrument))
    }
}

} // verus!
