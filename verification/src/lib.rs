//! Normalised market data streams from cryptocurrency exchanges.
//!
//! An exchange pushes market data over a socket in a format of its own. This
//! library holds everything about such streams that can be decided without
//! touching a socket, a clock or a task, and proves what it decides:
//!
//! - [`instrument`], [`subscription`] and [`event`] are the data model: what
//!   is subscribed to, and the events that come of it;
//! - [`exchange`] describes each exchange: its addresses, its keepalive, its
//!   names for channels and markets, and the frames that subscribe;
//! - [`subscriber`] plans the handshake that subscribes a batch over one
//!   socket and runs it as a machine: told what happened, it says what to do
//!   next;
//! - [`transformer`] turns the messages of an exchange into events;
//! - [`streams`] checks batches of subscriptions, sets up one connection for
//!   each and one stream for each exchange, and says what the task that owns
//!   a socket does next.
//!
//! The caller performs what the library says: it opens the sockets, sends
//! and receives the frames, reads the clock and runs the tasks.

use vstd::prelude::*;

pub mod error;
pub mod event;
pub mod exchange;
pub mod instrument;
pub mod json;
pub mod model;
pub mod sequence;
pub mod streams;
pub mod subscriber;
pub mod subscription;
pub mod text;
pub mod transformer;
pub mod web;

verus! {

/// Something that has a name on the wire.
pub trait Named: Sized {
    /// The name.
    spec fn name(&self) -> Seq<char>;

    /// The name.
    fn as_ref(&self) -> (text: &str)
        ensures
            text@ == self.name(),
    ;
}

/// Something from which an identifier of type `T` can be told.
pub trait Identifier<T: Named> {
    /// The name of the identifier.
    spec fn id_name(&self) -> Seq<char>;

    /// The identifier.
    fn id(&self) -> (id: T)
        ensures
            id.name() == self.id_name(),
    ;
}

} // verus!
