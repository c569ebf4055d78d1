//! Credentials, and what is signed with them.

use crate::error::SocketError;
use crate::json::{json_string, quoted};
use crate::text::{signed_decimal, signed_decimal_text};
use crate::web::{method_name, url_parts, Method, RequestUrl};
use vstd::prelude::*;
use vstd::string::*;
use vstd::utf8::*;

verus! {

/// The HMAC-SHA256 tag of a message under a key, as ring computes it.
pub uninterp spec fn hmac_sha256(key: Seq<u8>, message: Seq<u8>) -> Seq<u8>;

/// The base64 text of some bytes in the standard alphabet with padding, as
/// the base64 crate writes it.
pub uninterp spec fn base64(bytes: Seq<u8>) -> Seq<char>;

/// The most bytes that a key or a message to sign may hold.
pub const MAX_SIGNED_BYTES: u64 = 0x1000_0000_0000_0000;

/// Calls `ring::hmac::Key::new` with `HMAC_SHA256` and then
/// `ring::hmac::sign`. The tag is a function of key and message alone and is
/// as long as a SHA-256 digest, 32 bytes. ring panics where the bit length of
/// what it hashes does not fit in 64 bits; the bound on both lengths keeps
/// far from that.
#[verifier::external_body]
fn hmac_tag(key: &[u8], message: &[u8]) -> (tag: Vec<u8>)
    requires
        key@.len() < MAX_SIGNED_BYTES,
        message@.len() < MAX_SIGNED_BYTES,
    ensures
        tag@ == hmac_sha256(key@, message@),
        tag@.len() == 32,
{
    let key = ring::hmac::Key::new(ring::hmac::HMAC_SHA256, key);
    ring::hmac::sign(&key, message).as_ref().to_vec()
}

/// Calls `Engine::encode` of the base64 crate on its `STANDARD` engine. The
/// text is a function of the bytes alone, and holds four characters for every
/// three bytes or part of three bytes. The crate panics where the length of
/// the text does not fit in `usize`; the bound on the input keeps far from
/// that.
#[verifier::external_body]
fn base64_text(bytes: &[u8]) -> (text: String)
    requires
        bytes@.len() <= 0x2000_0000,
    ensures
        text@ == base64(bytes@),
        text@.len() == 4 * ((bytes@.len() + 2) / 3),
{
    base64::Engine::encode(&base64::engine::general_purpose::STANDARD, bytes)
}

/// The message that is signed for a request: the timestamp, the method, the
/// path, the query behind a question mark where there is one, and the body.
pub open spec fn sign_message(
    timestamp: Seq<char>,
    method: Method,
    path: Seq<char>,
    query: Option<Seq<char>>,
    body: Seq<char>,
) -> Seq<char> {
    match query {
        Some(query) => timestamp + method_name(method) + path + seq!['?'] + query + body,
        None => timestamp + method_name(method) + path + body,
    }
}

/// The signature of a message under a secret: the base64 text of the
/// HMAC-SHA256 tag of the message, both taken as UTF-8.
pub open spec fn signature_of(secret: Seq<char>, message: Seq<char>) -> Seq<char> {
    base64(hmac_sha256(encode_utf8(secret), encode_utf8(message)))
}

/// True when a text is short enough to be a key or a message to sign.
pub open spec fn signable(text: Seq<char>) -> bool {
    encode_utf8(text).len() < MAX_SIGNED_BYTES
}

/// The address whose path the login is signed with.
pub const LOGIN_URL: &'static str = "https://example.com/users/self/verify";

/// The frame that logs in with the given key, passphrase, timestamp and
/// signature.
pub open spec fn login_frame(
    key: Seq<char>,
    passphrase: Seq<char>,
    timestamp: Seq<char>,
    sign: Seq<char>,
) -> Seq<char> {
    "{\"args\":[{\"apiKey\":"@ + json_string(key) + ",\"passphrase\":"@ + json_string(passphrase)
        + ",\"sign\":"@ + json_string(sign) + ",\"timestamp\":"@ + json_string(timestamp)
        + "}],\"op\":\"login\"}"@
}

/// What came back after the login frame was sent.
#[derive(Debug)]
pub enum LoginAnswer {
    /// The exchange acknowledged the login.
    Acknowledged,
    /// The exchange refused the login, or answered with something that is no
    /// acknowledgement; the error tells what it sent.
    Refused(SocketError),
    /// The socket failed; the error tells how.
    Broken(SocketError),
    /// The stream ended without an answer.
    Nothing,
}

/// The credentials of an account: access key, secret key and passphrase.
#[derive(Debug)]
pub struct Signer {
    pub ak: String,
    pub sk: String,
    pub pwd: String,
}

impl Clone for Signer {
    fn clone(&self) -> (copy: Self)
        ensures
            copy == *self,
    {
        Signer { ak: self.ak.clone(), sk: self.sk.clone(), pwd: self.pwd.clone() }
    }
}

fn sign_message_text(method: &Method, timestamp: &str, url: &RequestUrl, body: &str) -> (message:
    String)
    ensures
        message@ == sign_message(timestamp@, *method, url.path(), url.query(), body@),
{
    let mut message = String::from_str(timestamp);
    message.append(method.as_str());
    message.append(url.path_str());
    match url.query_str() {
        Some(query) => {
            message.append("?");
            message.append(query);
            message.append(body);
            proof {
                reveal_strlit("?");
                assert(message@ =~= sign_message(
                    timestamp@,
                    *method,
                    url.path(),
                    url.query(),
                    body@,
                ));
            }
        },
        None => {
            message.append(body);
            assert(message@ =~= sign_message(timestamp@, *method, url.path(), url.query(), body@));
        },
    }
    message
}

impl Signer {
    /// Holds the given credentials.
    pub fn new(ak: &str, sk: &str, pwd: &str) -> (signer: Self)
        ensures
            signer.ak@ == ak@,
            signer.sk@ == sk@,
            signer.pwd@ == pwd@,
    {
        Signer { ak: String::from_str(ak), sk: String::from_str(sk), pwd: String::from_str(pwd) }
    }

    /// Does nothing.
    pub fn sign() {
    }

    /// Signs a request with the secret key: returns the access key and the
    /// signature of the request's message, a text of 44 characters (see
    /// [`Signer::signed`]). Key and message must be short enough to be signed;
    /// [`Signer::checked_signature`] signs whatever it is given.
    pub fn signature(&self, method: Method, timestamp: &str, url: &RequestUrl, body: &str) -> (signed:
        (&str, String))
        requires
            signable(self.sk@),
            signable(sign_message(timestamp@, method, url.path(), url.query(), body@)),
        ensures
            signed.0@ == self.ak@,
            signed.1@ == signature_of(
                self.sk@,
                sign_message(timestamp@, method, url.path(), url.query(), body@),
            ),
            signed.1@.len() == 44,
            self.signed(method, timestamp@, url.path(), url.query(), body@) == Some(
                (signed.0@, signed.1@),
            ),
    {
        let message = sign_message_text(&method, timestamp, url, body);
        let tag = hmac_tag(self.sk.as_str().as_bytes(), message.as_str().as_bytes());
        let signature = base64_text(tag.as_slice());
        (self.ak.as_str(), signature)
    }

    /// What signing a request comes to: the access key and the signature of
    /// the request's message under the secret key, or nothing where key or
    /// message are too long to be signed. It is told from the two keys, the
    /// name of the method, the timestamp, path and query of the address and
    /// the body, and from nothing else.
    pub open spec fn signed(
        &self,
        method: Method,
        timestamp: Seq<char>,
        path: Seq<char>,
        query: Option<Seq<char>>,
        body: Seq<char>,
    ) -> Option<(Seq<char>, Seq<char>)> {
        let message = sign_message(timestamp, method, path, query, body);
        if signable(self.sk@) && signable(message) {
            Some((self.ak@, signature_of(self.sk@, message)))
        } else {
            None
        }
    }

    /// Signs a request as [`Signer::signature`] does, where key and message
    /// are short enough to be signed, and returns `None` where one is not
    /// (see [`Signer::signed`]).
    pub fn checked_signature(
        &self,
        method: Method,
        timestamp: &str,
        url: &RequestUrl,
        body: &str,
    ) -> (signed: Option<(&str, String)>)
        ensures
            match signed {
                Some(signed) => self.signed(method, timestamp@, url.path(), url.query(), body@)
                    == Some((signed.0@, signed.1@)) && signed.1@.len() == 44,
                None => self.signed(method, timestamp@, url.path(), url.query(), body@).is_none(),
            },
    {
        let message = sign_message_text(&method, timestamp, url, body);
        if self.sk.as_str().as_bytes().len() as u64 >= MAX_SIGNED_BYTES
            || message.as_str().as_bytes().len() as u64 >= MAX_SIGNED_BYTES {
            return None;
        }
        Some(self.signature(method, timestamp, url, body))
    }

    /// The frame that logs in at the given time, in seconds since the Unix
    /// epoch: it holds the access key, the passphrase, the time, and the
    /// signature of a `GET` of [`LOGIN_URL`] at that time with an empty body.
    /// There is none where that address does not parse or where key or
    /// message are too long to be signed.
    pub open spec fn login_text(&self, timestamp: int) -> Option<Seq<char>> {
        match url_parts(LOGIN_URL@) {
            Some(parts) => {
                let message = sign_message(
                    signed_decimal(timestamp),
                    Method::Get,
                    parts.0,
                    parts.1,
                    Seq::<char>::empty(),
                );
                if signable(self.sk@) && signable(message) {
                    Some(
                        login_frame(
                            self.ak@,
                            self.pwd@,
                            signed_decimal(timestamp),
                            signature_of(self.sk@, message),
                        ),
                    )
                } else {
                    None
                }
            },
            None => None,
        }
    }

    /// Makes the frame that logs in at the given time, in seconds since the
    /// Unix epoch (see [`Signer::login_text`]). Where there is none, the
    /// error tells why: the address did not parse, or the request is too long
    /// to sign.
    pub fn login_request(&self, timestamp: i64) -> (frame: Result<String, SocketError>)
        ensures
            match frame {
                Ok(frame) => self.login_text(timestamp as int) == Some(frame@),
                Err(SocketError::UrlParse(_)) => url_parts(LOGIN_URL@).is_none(),
                Err(error) => url_parts(LOGIN_URL@).is_some() && self.login_text(timestamp as int).is_none()
                    && error.is_subscribe("login request is too long to sign"@),
            },
    {
        let timestamp = signed_decimal_text(timestamp);
        let url = match RequestUrl::parse(LOGIN_URL) {
            Ok(url) => url,
            Err(error) => {
                return Err(SocketError::UrlParse(error));
            },
        };
        proof {
            reveal_strlit("");
            assert(""@ =~= Seq::<char>::empty());
        }
        match self.checked_signature(Method::Get, timestamp.as_str(), &url, "") {
            Some(signed) => {
                let mut frame = String::from_str("{\"args\":[{\"apiKey\":");
                frame.append(quoted(signed.0).as_str());
                frame.append(",\"passphrase\":");
                frame.append(quoted(self.pwd.as_str()).as_str());
                frame.append(",\"sign\":");
                frame.append(quoted(signed.1.as_str()).as_str());
                frame.append(",\"timestamp\":");
                frame.append(quoted(timestamp.as_str()).as_str());
                frame.append("}],\"op\":\"login\"}");
                Ok(frame)
            },
            None => Err(
                SocketError::Subscribe(String::from_str("login request is too long to sign")),
            ),
        }
    }

    /// Judges what came back after the login frame was sent. The login
    /// stands only where the exchange acknowledged it. A refusal and a failure
    /// of the socket fail it with the error that they brought, and a stream
    /// that ended without an answer fails it as a failure to subscribe.
    pub fn login_response(answer: LoginAnswer) -> (outcome: Result<i32, SocketError>)
        ensures
            match answer {
                LoginAnswer::Acknowledged => outcome == Ok::<i32, SocketError>(666),
                LoginAnswer::Refused(error) => outcome == Err::<i32, SocketError>(error),
                LoginAnswer::Broken(error) => outcome == Err::<i32, SocketError>(error),
                LoginAnswer::Nothing => outcome matches Err(error) && error.is_subscribe(
                    "WebSocket stream okx login failed"@,
                ),
            },
    {
        match answer {
            LoginAnswer::Acknowledged => Ok(666),
            LoginAnswer::Refused(error) => Err(error),
            LoginAnswer::Broken(error) => Err(error),
            LoginAnswer::Nothing => Err(
                SocketError::Subscribe(String::from_str("WebSocket stream okx login failed")),
            ),
        }
    }
}

/// Signing is deterministic: whenever and wherever a request is signed, and
/// however often, signers with the same keys come to the same result for the
/// same request, be it a signature or none.
pub proof fn law_signature_is_deterministic(
    first: Signer,
    second: Signer,
    method: Method,
    timestamp: Seq<char>,
    path: Seq<char>,
    query: Option<Seq<char>>,
    body: Seq<char>,
)
    requires
        first.ak@ == second.ak@,
        first.sk@ == second.sk@,
    ensures
        first.signed(method, timestamp, path, query, body) == second.signed(
            method,
            timestamp,
            path,
            query,
            body,
        ),
{
}

/// Signing reads nothing but the two keys and the request: the passphrase
/// of the signer, the text of the address beyond its path and query, and the
/// way in which a method of the same name is written make no difference.
pub proof fn law_signature_depends_on_keys_and_request_alone(
    first: Signer,
    second: Signer,
    first_method: Method,
    second_method: Method,
    first_url: RequestUrl,
    second_url: RequestUrl,
    timestamp: Seq<char>,
    body: Seq<char>,
)
    requires
        first.ak@ == second.ak@,
        first.sk@ == second.sk@,
        method_name(first_method) == method_name(second_method),
        first_url.path() == second_url.path(),
        first_url.query() == second_url.query(),
    ensures
        first.signed(first_method, timestamp, first_url.path(), first_url.query(), body)
            == second.signed(
            second_method,
            timestamp,
            second_url.path(),
            second_url.query(),
            body,
        ),
{
}

} // verus!
