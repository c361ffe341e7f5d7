//! The client: builds the request of each operation against a base URL, and reads
//! the reply of each operation into its result.
use vstd::prelude::*;
use vstd::string::StringExecFns;

use crate::error::{ClientError, Failure};
use crate::http::{parse_uri, parses_as_uri, text_view, HttpReply, HttpRequest, Method, RequestView};
use crate::json::{json_quoted, json_string_list, parse_string_list, quote};
use crate::text::{decimal, decimal_text, list_text, list_text_of};

verus! {

/// The base URL that `DiscoClient::default` uses.
pub open spec fn default_base() -> Seq<char> {
    "http://localhost:8000"@
}

/// The content type of every request body.
pub open spec fn json_content_type() -> Seq<char> {
    "application/json"@
}

/// Where indexes are created and listed.
pub open spec fn collection_target(base: Seq<char>) -> Seq<char> {
    base + "/index"@
}

/// Where the vectors of an index are inserted.
pub open spec fn vectors_target(base: Seq<char>, index: Seq<char>) -> Seq<char> {
    base + "/index/"@ + index + "/vectors"@
}

/// Where an index is queried.
pub open spec fn query_target(base: Seq<char>, index: Seq<char>) -> Seq<char> {
    base + "/index/"@ + index + "/query"@
}

/// `{"name": <name>, "dim": <dim>}`
pub open spec fn create_body(name: Seq<char>, dim: u8) -> Seq<char> {
    "{\"name\": "@ + json_quoted(name) + ", \"dim\": "@ + decimal(dim as nat) + "}"@
}

/// `{"vec": [<numbers>]}`
pub open spec fn insert_body(vector: Seq<String>) -> Seq<char> {
    "{\"vec\": "@ + list_text(vector) + "}"@
}

/// `{"query": [<numbers>], "k": <k>}`
pub open spec fn query_body(vector: Seq<String>, k: u8) -> Seq<char> {
    "{\"query\": "@ + list_text(vector) + ", \"k\": "@ + decimal(k as nat) + "}"@
}

/// The request with this method, target and body, or the failure that its target
/// is not a URI. A body always goes with the JSON content type.
pub open spec fn request_to(method: Method, target: Seq<char>, body: Option<Seq<char>>) -> Result<
    RequestView,
    Failure,
> {
    if parses_as_uri(target) {
        Ok(
            RequestView {
                method,
                target,
                content_type: match body {
                    Some(_) => Some(json_content_type()),
                    None => None,
                },
                body,
            },
        )
    } else {
        Err(Failure::InvalidUri(target))
    }
}

pub open spec fn request_view(r: Result<HttpRequest, ClientError>) -> Result<RequestView, Failure> {
    match r {
        Ok(req) => Ok(req@),
        Err(e) => Err(e@),
    }
}

/// The failure that a reply means before its body is read: none for status 200.
pub open spec fn reply_failure(reply: Result<HttpReply, String>) -> Option<Failure> {
    match reply {
        Err(m) => Some(Failure::Transport(m@)),
        Ok(rep) => if rep.status == 200 {
            None
        } else {
            Some(Failure::UnexpectedStatus(rep.status, rep.body@))
        },
    }
}

/// The result of an operation whose reply body is ignored.
pub open spec fn acknowledgement(reply: Result<HttpReply, String>) -> Result<(), Failure> {
    match reply_failure(reply) {
        Some(f) => Err(f),
        None => Ok(()),
    }
}

/// The description carried by a reply body that is not a list of names.
pub open spec fn not_a_name_list() -> Seq<char> {
    "the reply body is not a JSON array of strings"@
}

/// The result of an operation whose reply body is a JSON array of strings.
pub open spec fn name_list(reply: Result<HttpReply, String>) -> Result<Seq<Seq<char>>, Failure> {
    match reply_failure(reply) {
        Some(f) => Err(f),
        None => match json_string_list(reply->Ok_0.body@) {
            Some(names) => Ok(names),
            None => Err(Failure::Decode(not_a_name_list(), reply->Ok_0.body@)),
        },
    }
}

pub open spec fn unit_view(r: Result<(), ClientError>) -> Result<(), Failure> {
    match r {
        Ok(()) => Ok(()),
        Err(e) => Err(e@),
    }
}

pub open spec fn names_view(r: Result<Vec<String>, ClientError>) -> Result<Seq<Seq<char>>, Failure> {
    match r {
        Ok(v) => Ok(v@.map_values(|s: String| s@)),
        Err(e) => Err(e@),
    }
}

/// Whether two transport outcomes are the same: the same message, or replies
/// with the same status and the same body bytes.
pub open spec fn same_reply(a: Result<HttpReply, String>, b: Result<HttpReply, String>) -> bool {
    match (a, b) {
        (Err(m), Err(n)) => m@ == n@,
        (Ok(x), Ok(y)) => x.status == y.status && x.body@ == y.body@,
        _ => false,
    }
}

/// An operation whose reply body is ignored (creating an index, inserting a
/// vector) succeeds exactly when the reply has status 200; a reply of any other
/// status is a status failure that carries that status and the body.
pub proof fn status_decides_acknowledgement(reply: HttpReply)
    ensures
        acknowledgement(Ok(reply)) is Ok <==> reply.status == 200,
        reply.status != 200 ==> acknowledgement(Ok(reply)) == Err::<(), Failure>(
            Failure::UnexpectedStatus(reply.status, reply.body@),
        ),
{
}

/// When no reply comes, every operation reports the transport's failure with its
/// message, never a status or a decode failure.
pub proof fn transport_failure_is_reported(message: String)
    ensures
        acknowledgement(Err(message)) == Err::<(), Failure>(Failure::Transport(message@)),
        name_list(Err(message)) == Err::<Seq<Seq<char>>, Failure>(Failure::Transport(message@)),
{
}

/// Reading a list of names depends on the reply alone: the same reply read twice
/// gives the same result, whatever came before.
pub proof fn listing_is_repeatable(a: Result<HttpReply, String>, b: Result<HttpReply, String>)
    requires
        same_reply(a, b),
    ensures
        name_list(a) == name_list(b),
{
}

/// Gives the request its parsed URI and, with a body, the JSON content type.
fn request(method: Method, target: String, body: Option<String>) -> (r: Result<
    HttpRequest,
    ClientError,
>)
    ensures
        request_view(r) == request_to(method, target@, text_view(body)),
{
    match parse_uri(target.as_str()) {
        Some(uri) => {
            let content_type = match body {
                Some(_) => Some(String::from_str("application/json")),
                None => None,
            };
            Ok(HttpRequest { method, target, uri, content_type, body })
        },
        None => Err(ClientError::InvalidUri(target)),
    }
}

/// The result of an operation whose reply body is ignored: `Ok` for status 200.
pub fn expect_success(reply: Result<HttpReply, String>) -> (r: Result<(), ClientError>)
    ensures
        unit_view(r) == acknowledgement(reply),
{
    match reply {
        Err(m) => Err(ClientError::Transport(m)),
        Ok(rep) => if rep.status == 200 {
            Ok(())
        } else {
            Err(ClientError::UnexpectedStatus { status: rep.status, body: rep.body })
        },
    }
}

/// The names in a reply of status 200 whose body is a JSON array of strings, in
/// the order in which the reply lists them.
pub fn expect_names(reply: Result<HttpReply, String>) -> (r: Result<Vec<String>, ClientError>)
    ensures
        names_view(r) == name_list(reply),
{
    match reply {
        Err(m) => Err(ClientError::Transport(m)),
        Ok(rep) => if rep.status != 200 {
            Err(ClientError::UnexpectedStatus { status: rep.status, body: rep.body })
        } else {
            match parse_string_list(rep.body.as_slice()) {
                Some(names) => Ok(names),
                None => Err(
                    ClientError::Decode {
                        description: String::from_str(
                            "the reply body is not a JSON array of strings",
                        ),
                        body: rep.body,
                    },
                ),
            }
        },
    }
}

/// A client of the index service at a base URL.
#[derive(Debug)]
pub struct DiscoClient {
    base_url: String,
}

impl View for DiscoClient {
    type V = Seq<char>;

    /// The base URL.
    closed spec fn view(&self) -> Seq<char> {
        self.base_url@
    }
}

impl Default for DiscoClient {
    /// A client of the service at `http://localhost:8000`.
    fn default() -> (r: Self)
        ensures
            r@ == default_base(),
    {
        DiscoClient { base_url: String::from_str("http://localhost:8000") }
    }
}

impl DiscoClient {
    /// A client of the service at `base_url`.
    pub fn new(base_url: &str) -> (r: Self)
        ensures
            r@ == base_url@,
    {
        DiscoClient { base_url: String::from_str(base_url) }
    }

    /// The base URL.
    pub fn base_url(&self) -> (r: &str)
        ensures
            r@ == self@,
    {
        self.base_url.as_str()
    }

    fn collection(&self) -> (r: String)
        ensures
            r@ == collection_target(self@),
    {
        let mut r = String::from_str(self.base_url.as_str());
        r.append("/index");
        r
    }

    fn member(&self, index_name: &str, tail: &str) -> (r: String)
        ensures
            r@ == self@ + "/index/"@ + index_name@ + tail@,
    {
        let mut r = String::from_str(self.base_url.as_str());
        r.append("/index/");
        r.append(index_name);
        r.append(tail);
        r
    }

    /// The request that creates an index of vectors of `dim` numbers under `name`.
    pub fn create_index(&self, name: &str, dim: u8) -> (r: Result<HttpRequest, ClientError>)
        ensures
            request_view(r) == request_to(
                Method::Post,
                collection_target(self@),
                Some(create_body(name@, dim)),
            ),
    {
        // Quoting a text never fails.
        let quoted = match quote(name) {
            Ok(q) => q,
            Err(_) => String::new(),
        };
        let mut body = String::from_str("{\"name\": ");
        body.append(quoted.as_str());
        body.append(", \"dim\": ");
        body.append(decimal_text(dim).as_str());
        body.append("}");
        request(Method::Post, self.collection(), Some(body))
    }

    /// The request that lists the names of all indexes.
    pub fn get_all_indexes(&self) -> (r: Result<HttpRequest, ClientError>)
        ensures
            request_view(r) == request_to(Method::Get, collection_target(self@), None),
    {
        request(Method::Get, self.collection(), None)
    }

    /// The request that inserts a vector into an index. Each item of `vector` is
    /// the JSON text of one number.
    pub fn insert_vector(&self, index_name: &str, vector: &Vec<String>) -> (r: Result<
        HttpRequest,
        ClientError,
    >)
        ensures
            request_view(r) == request_to(
                Method::Post,
                vectors_target(self@, index_name@),
                Some(insert_body(vector@)),
            ),
    {
        let mut body = String::from_str("{\"vec\": ");
        body.append(list_text_of(vector).as_str());
        body.append("}");
        request(Method::Post, self.member(index_name, "/vectors"), Some(body))
    }

    /// The request for the `k` identifiers nearest to a query vector in an index.
    /// Each item of `query_vector` is the JSON text of one number.
    pub fn query_knn(&self, index_name: &str, query_vector: &Vec<String>, k: u8) -> (r: Result<
        HttpRequest,
        ClientError,
    >)
        ensures
            request_view(r) == request_to(
                Method::Post,
                query_target(self@, index_name@),
                Some(query_body(query_vector@, k)),
            ),
    {
        let mut body = String::from_str("{\"query\": ");
        body.append(list_text_of(query_vector).as_str());
        body.append(", \"k\": ");
        body.append(decimal_text(k).as_str());
        body.append("}");
        request(Method::Post, self.member(index_name, "/query"), Some(body))
    }
}

} // verus!
