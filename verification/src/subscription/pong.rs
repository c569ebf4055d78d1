//! Answers to keepalive frames.

use crate::subscription::SubKind;
use vstd::prelude::*;

verus! {

/// The kind of subscription that yields [`Pong`] events.
#[derive(Clone, Copy, Debug, PartialEq, Eq, Structural)]
pub struct Pongs;

impl SubKind for Pongs {
    type Event = Pong;
}

/// The exchange answered a keepalive frame.
#[derive(Clone, Copy, Debug, PartialEq, Eq, Structural)]
pub struct Pong;

} // verus!
