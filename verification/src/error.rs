//! The errors of this library.

use crate::exchange::ExchangeId;
use crate::instrument::InstrumentKind;
use crate::subscription::SubscriptionId;
use vstd::prelude::*;

verus! {

/// What can go wrong on a socket and in the exchange of frames over it.
#[derive(Debug)]
pub enum SocketError {
    /// A frame could not be handed to the socket.
    Sink,
    /// A frame could not be read as the message that was expected.
    Deserialise { payload: String },
    /// An address did not parse.
    UrlParse(url::ParseError),
    /// Subscribing failed; the text says how.
    Subscribe(String),
    /// The exchange closed the stream with this closing frame.
    Terminated(String),
    /// The exchange does not offer instruments of this kind.
    Unsupported { entity: ExchangeId, item: InstrumentKind },
    /// The socket itself failed.
    WebSocket(String),
    /// A message carried an identifier that no subscription asked for.
    Unidentifiable(SubscriptionId),
    /// The exchange sent an error message.
    Exchange(String),
}

/// What can go wrong while market data streams are set up and consumed.
#[derive(Debug)]
pub enum DataError {
    Socket(SocketError),
}

impl DataError {
    /// True when the error is a failure to subscribe with the given text.
    pub open spec fn is_subscribe(&self, text: Seq<char>) -> bool {
        self matches DataError::Socket(SocketError::Subscribe(held)) && held@ == text
    }
}

impl SocketError {
    /// True when the error is a failure to subscribe with the given text.
    pub open spec fn is_subscribe(&self, text: Seq<char>) -> bool {
        self matches SocketError::Subscribe(held) && held@ == text
    }
}

} // verus!
