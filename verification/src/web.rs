//! Plain values for what travels over the wire: addresses, request methods
//! and socket frames.

use crate::text::same_text;
use vstd::prelude::*;
use vstd::string::*;

verus! {

#[verifier::external_type_specification]
#[verifier::external_body]
pub struct ExParseError(url::ParseError);

/// What `Url::parse` of the url crate makes of a text: `None` where it
/// returns an error, else what `path()` and `query()` return on the parsed
/// address.
pub uninterp spec fn url_parts(text: Seq<char>) -> Option<(Seq<char>, Option<Seq<char>>)>;

/// The characters of an optional text.
pub open spec fn optional_text(text: Option<String>) -> Option<Seq<char>> {
    match text {
        Some(text) => Some(text@),
        None => None,
    }
}

/// Calls `Url::parse` of the url crate and, where that succeeds, reads the
/// parsed address with `Url::path` and `Url::query`. The contract only names
/// the outcome: it is a function of the text alone.
#[verifier::external_body]
fn parse_url(text: &str) -> (parsed: Result<(String, Option<String>), url::ParseError>)
    ensures
        match url_parts(text@) {
            Some(parts) => parsed matches Ok(found) && found.0@ == parts.0 && optional_text(
                found.1,
            ) == parts.1,
            None => parsed is Err,
        },
{
    let url = url::Url::parse(text)?;
    Ok((url.path().to_owned(), url.query().map(str::to_owned)))
}

/// An address that parsed: its text as given, and the path and the query
/// that a request to it is signed with.
#[derive(Debug)]
pub struct RequestUrl {
    text: String,
    path: String,
    query: Option<String>,
}

impl RequestUrl {
    /// The text that the address was parsed from.
    pub closed spec fn text(&self) -> Seq<char> {
        self.text@
    }

    /// The path of the address.
    pub closed spec fn path(&self) -> Seq<char> {
        self.path@
    }

    /// The query of the address, if it has one.
    pub closed spec fn query(&self) -> Option<Seq<char>> {
        optional_text(self.query)
    }

    /// True when path and query are those of the text.
    pub open spec fn wf(&self) -> bool {
        url_parts(self.text()) == Some((self.path(), self.query()))
    }

    /// Parses an address. It is accepted exactly where the url crate accepts
    /// it, and then holds the path and query that the crate finds in it.
    pub fn parse(text: &str) -> (parsed: Result<RequestUrl, url::ParseError>)
        ensures
            match url_parts(text@) {
                Some(parts) => parsed matches Ok(url) && url.text() == text@ && url.path()
                    == parts.0 && url.query() == parts.1 && url.wf(),
                None => parsed is Err,
            },
    {
        match parse_url(text) {
            Ok(found) => Ok(RequestUrl { text: String::from_str(text), path: found.0, query: found.1 }),
            Err(error) => Err(error),
        }
    }

    /// The text that the address was parsed from.
    pub fn as_str(&self) -> (text: &str)
        ensures
            text@ == self.text(),
    {
        self.text.as_str()
    }

    /// The path of the address.
    pub fn path_str(&self) -> (path: &str)
        ensures
            path@ == self.path(),
    {
        self.path.as_str()
    }

    /// The query of the address, if it has one.
    pub fn query_str(&self) -> (query: Option<&str>)
        ensures
            match query {
                Some(query) => self.query() == Some(query@),
                None => self.query().is_none(),
            },
    {
        match &self.query {
            Some(query) => Some(query.as_str()),
            None => None,
        }
    }
}

/// The method of a request: one of the standard methods, or an extension
/// method, which goes by a name of its own.
#[derive(Clone, Debug, PartialEq, Eq)]
pub enum Method {
    Get,
    Post,
    Put,
    Delete,
    Head,
    Options,
    Connect,
    Patch,
    Trace,
    Extension(String),
}

/// The name of a method as it stands in a request line.
pub open spec fn method_name(method: Method) -> Seq<char> {
    match method {
        Method::Get => "GET"@,
        Method::Post => "POST"@,
        Method::Put => "PUT"@,
        Method::Delete => "DELETE"@,
        Method::Head => "HEAD"@,
        Method::Options => "OPTIONS"@,
        Method::Connect => "CONNECT"@,
        Method::Patch => "PATCH"@,
        Method::Trace => "TRACE"@,
        Method::Extension(name) => name@,
    }
}

impl Method {
    /// The method that goes by the given name: the standard method of that
    /// name where there is one, else the extension method of that name.
    pub fn from_name(name: &str) -> (method: Method)
        ensures
            method_name(method) == name@,
            method is Extension <==> name@ != "GET"@ && name@ != "POST"@ && name@ != "PUT"@
                && name@ != "DELETE"@ && name@ != "HEAD"@ && name@ != "OPTIONS"@ && name@
                != "CONNECT"@ && name@ != "PATCH"@ && name@ != "TRACE"@,
    {
        if same_text(name, "GET") {
            Method::Get
        } else if same_text(name, "POST") {
            Method::Post
        } else if same_text(name, "PUT") {
            Method::Put
        } else if same_text(name, "DELETE") {
            Method::Delete
        } else if same_text(name, "HEAD") {
            Method::Head
        } else if same_text(name, "OPTIONS") {
            Method::Options
        } else if same_text(name, "CONNECT") {
            Method::Connect
        } else if same_text(name, "PATCH") {
            Method::Patch
        } else if same_text(name, "TRACE") {
            Method::Trace
        } else {
            Method::Extension(String::from_str(name))
        }
    }

    /// The name of the method as it stands in a request line.
    pub fn as_str(&self) -> (name: &str)
        ensures
            name@ == method_name(*self),
    {
        match self {
            Method::Get => "GET",
            Method::Post => "POST",
            Method::Put => "PUT",
            Method::Delete => "DELETE",
            Method::Head => "HEAD",
            Method::Options => "OPTIONS",
            Method::Connect => "CONNECT",
            Method::Patch => "PATCH",
            Method::Trace => "TRACE",
            Method::Extension(name) => name.as_str(),
        }
    }
}

/// A frame on a socket.
#[derive(Debug)]
pub enum WsMessage {
    Text(String),
    Binary(Vec<u8>),
    Ping(Vec<u8>),
    Pong(Vec<u8>),
    Close(Option<String>),
}

impl WsMessage {
    /// True when the frame is a text frame that holds `text`.
    pub open spec fn is_text(&self, text: Seq<char>) -> bool {
        self matches WsMessage::Text(held) && held@ == text
    }

    /// Makes a text frame.
    pub fn text(payload: &str) -> (frame: WsMessage)
        ensures
            frame.is_text(payload@),
    {
        WsMessage::Text(String::from_str(payload))
    }
}

/// The texts of a run of frames that are all text frames.
pub open spec fn are_texts(frames: Seq<WsMessage>, texts: Seq<Seq<char>>) -> bool {
    &&& frames.len() == texts.len()
    &&& forall|i: int| 0 <= i < frames.len() ==> (#[trigger] frames[i]).is_text(texts[i])
}

} // verus!
