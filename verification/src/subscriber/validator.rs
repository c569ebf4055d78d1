//! Judging what an exchange answers to the requests to subscribe.

use crate::error::SocketError;
use crate::text::{decimal, decimal_text};
use vstd::prelude::*;
use vstd::string::*;

verus! {

/// What came in, or failed to, while confirmations were awaited.
#[derive(Debug)]
pub enum Response {
    /// Nothing came within the time allowed.
    Timeout,
    /// The stream ended.
    Closed,
    /// The exchange confirmed a subscription.
    Confirmed,
    /// The exchange answered a request with a refusal; the error tells it.
    Refused(SocketError),
    /// A frame came that is no answer to a request: most likely data of a
    /// subscription that is already active.
    Unreadable,
    /// The exchange closed the stream with this closing frame.
    Terminated(String),
    /// Anything else: a ping, a pong, a fault of the socket.
    Other,
}

/// What a response amounts to.
#[derive(Debug)]
pub enum Judgment {
    /// More confirmations are awaited; so many have come.
    Wait { confirmed: usize },
    /// Every subscription is confirmed.
    Valid,
    /// The batch of subscriptions failed as a whole.
    Invalid(SocketError),
}

/// The text of the error for a wait that timed out after so many
/// milliseconds.
pub open spec fn timeout_text(timeout: nat) -> Seq<char> {
    "subscription validation timeout reached: "@ + decimal(timeout) + "ms"@
}

/// The text of the error for a stream that the exchange closed with the
/// given closing frame.
pub open spec fn close_text(frame: Seq<char>) -> Seq<char> {
    "received WebSocket CloseFrame: "@ + frame
}

/// True when the judgment is that the batch failed to subscribe, for the
/// given reason.
pub open spec fn fails_with(judgment: Judgment, reason: Seq<char>) -> bool {
    judgment matches Judgment::Invalid(error) && error.is_subscribe(reason)
}

/// What a response amounts to.
pub trait SubscriptionValidator {
    /// Judges one response, where `confirmed` of the `expected`
    /// confirmations have come before it and the wait for each response is
    /// `timeout` milliseconds. One more confirmation makes the batch valid
    /// where it is the last that was awaited. A refusal, a timeout and the end
    /// of the stream fail the batch as a whole. Everything else is passed
    /// over.
    fn validate(expected: usize, confirmed: usize, timeout: u64, response: Response) -> (judgment:
        Judgment)
        requires
            confirmed < expected,
        ensures
            match response {
                Response::Timeout => fails_with(judgment, timeout_text(timeout as nat)),
                Response::Closed => fails_with(
                    judgment,
                    "WebSocket stream terminated unexpectedly"@,
                ),
                Response::Confirmed => if confirmed + 1 == expected {
                    judgment is Valid
                } else {
                    judgment == (Judgment::Wait { confirmed: (confirmed + 1) as usize })
                },
                Response::Refused(error) => judgment == Judgment::Invalid(error),
                Response::Terminated(frame) => fails_with(judgment, close_text(frame@)),
                Response::Unreadable | Response::Other => judgment == (Judgment::Wait { confirmed }),
            },
    ;
}

/// The validator for exchanges that are reached over a WebSocket.
#[derive(Clone, Copy, Debug, PartialEq, Eq, Structural)]
pub struct WebSocketSubValidator;

impl SubscriptionValidator for WebSocketSubValidator {
    fn validate(expected: usize, confirmed: usize, timeout: u64, response: Response) -> (judgment:
        Judgment) {
        match response {
            Response::Timeout => {
                let mut reason = String::from_str("subscription validation timeout reached: ");
                reason.append(decimal_text(timeout).as_str());
                reason.append("ms");
                Judgment::Invalid(SocketError::Subscribe(reason))
            },
            Response::Closed => Judgment::Invalid(
                SocketError::Subscribe(String::from_str("WebSocket stream terminated unexpectedly")),
            ),
            Response::Confirmed => {
                if confirmed + 1 == expected {
                    Judgment::Valid
                } else {
                    Judgment::Wait { confirmed: confirmed + 1 }
                }
            },
            Response::Refused(error) => Judgment::Invalid(error),
            Response::Terminated(frame) => {
                let mut reason = String::from_str("received WebSocket CloseFrame: ");
                reason.append(frame.as_str());
                Judgment::Invalid(SocketError::Subscribe(reason))
            },
            Response::Unreadable => Judgment::Wait { confirmed },
            Response::Other => Judgment::Wait { confirmed },
        }
    }
}

} // verus!
