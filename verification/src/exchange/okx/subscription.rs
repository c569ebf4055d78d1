//! What Okx answers to a request to subscribe.

use crate::error::SocketError;
use crate::streams::builder::LoginAnswer;
use vstd::prelude::*;
use vstd::string::*;

verus! {

/// The answer of Okx to a request to subscribe.
#[derive(Clone, Debug, PartialEq, Eq)]
pub enum OkxSubResponse {
    Subscribed,
    Error { code: String, message: String },
}

/// The text of the error for a refusal with the given code and message.
pub open spec fn refusal(code: Seq<char>, message: Seq<char>) -> Seq<char> {
    "received failure subscription response code: "@ + code + " with message: "@ + message
}

impl OkxSubResponse {
    /// Accepts a confirmation and turns a refusal into the error that tells
    /// its code and message.
    pub fn validate(self) -> (result: Result<OkxSubResponse, SocketError>)
        ensures
            match self {
                OkxSubResponse::Subscribed => result == Ok::<OkxSubResponse, SocketError>(
                    OkxSubResponse::Subscribed,
                ),
                OkxSubResponse::Error { code, message } => result matches Err(error)
                    && error.is_subscribe(refusal(code@, message@)),
            },
    {
        match self {
            OkxSubResponse::Subscribed => Ok(OkxSubResponse::Subscribed),
            OkxSubResponse::Error { code, message } => {
                let mut text = String::from_str("received failure subscription response code: ");
                text.append(code.as_str());
                text.append(" with message: ");
                text.append(message.as_str());
                Err(SocketError::Subscribe(text))
            },
        }
    }
}

/// The answer of Okx to a login.
#[derive(Clone, Debug, PartialEq, Eq)]
pub enum OkxLoginResponse {
    LoggedIn,
    Error { code: String, message: String },
}

/// The text of the error for a login that was refused with the given code
/// and message.
pub open spec fn login_refusal(code: Seq<char>, message: Seq<char>) -> Seq<char> {
    "received failure login response code: "@ + code + " with message: "@ + message
}

impl OkxLoginResponse {
    /// Tells what the answer means for the login: an acknowledgement, or a
    /// refusal with the error that tells its code and message.
    pub fn answer(self) -> (answer: LoginAnswer)
        ensures
            match self {
                OkxLoginResponse::LoggedIn => answer is Acknowledged,
                OkxLoginResponse::Error { code, message } => answer matches LoginAnswer::Refused(
                    error,
                ) && error.is_subscribe(login_refusal(code@, message@)),
            },
    {
        match self {
            OkxLoginResponse::LoggedIn => LoginAnswer::Acknowledged,
            OkxLoginResponse::Error { code, message } => {
                let mut text = String::from_str("received failure login response code: ");
                text.append(code.as_str());
                text.append(" with message: ");
                text.append(message.as_str());
                LoginAnswer::Refused(SocketError::Subscribe(text))
            },
        }
    }
}

} // verus!
