//! The requests that the client hands to a transport, and the replies it gets back.
use vstd::prelude::*;

verus! {

#[verifier::external_type_specification]
#[verifier::external_body]
pub struct ExUri(hyper::Uri);

/// Whether hyper's `Uri` parser accepts the text.
pub uninterp spec fn parses_as_uri(s: Seq<char>) -> bool;

/// Relies on `<hyper::Uri as FromStr>::from_str` (the `http` crate's URI parser):
/// `Some` exactly when it accepts the text.
#[verifier::external_body]
pub(crate) fn parse_uri(s: &str) -> (r: Option<hyper::Uri>)
    ensures
        r is Some <==> parses_as_uri(s@),
{
    s.parse::<hyper::Uri>().ok()
}

/// The HTTP method of a request.
#[derive(Clone, Copy, Debug, PartialEq, Eq, Structural)]
pub enum Method {
    Get,
    Post,
}

/// A request ready to be sent: its method, its target both as text and as a
/// parsed URI, and the JSON body with its content type, if it has one.
#[derive(Debug)]
pub struct HttpRequest {
    pub method: Method,
    pub target: String,
    pub uri: hyper::Uri,
    pub content_type: Option<String>,
    pub body: Option<String>,
}

/// What a request is, without the parsed URI.
pub struct RequestView {
    pub method: Method,
    pub target: Seq<char>,
    pub content_type: Option<Seq<char>>,
    pub body: Option<Seq<char>>,
}

pub open spec fn text_view(t: Option<String>) -> Option<Seq<char>> {
    match t {
        Some(s) => Some(s@),
        None => None,
    }
}

impl View for HttpRequest {
    type V = RequestView;

    open spec fn view(&self) -> RequestView {
        RequestView {
            method: self.method,
            target: self.target@,
            content_type: text_view(self.content_type),
            body: text_view(self.body),
        }
    }
}

/// What a transport got back for a request: the status code and the body bytes.
#[derive(Clone, Debug)]
pub struct HttpReply {
    pub status: u16,
    pub body: Vec<u8>,
}

} // verus!
