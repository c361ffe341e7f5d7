//! The ways in which a call can fail.
use vstd::prelude::*;
use vstd::string::StringExecFns;

verus! {

/// Why a call failed.
#[derive(Debug)]
pub enum ClientError {
    /// The request's target is not a URI that can be sent to.
    InvalidUri(String),
    /// No reply came: the connection failed or broke off. Holds the transport's message.
    Transport(String),
    /// A reply came with a status other than 200.
    UnexpectedStatus { status: u16, body: Vec<u8> },
    /// A reply came with status 200 but its body is not what the call expects.
    Decode { description: String, body: Vec<u8> },
}

/// A failure over plain values.
pub enum Failure {
    InvalidUri(Seq<char>),
    Transport(Seq<char>),
    UnexpectedStatus(u16, Seq<u8>),
    Decode(Seq<char>, Seq<u8>),
}

impl View for ClientError {
    type V = Failure;

    open spec fn view(&self) -> Failure {
        match self {
            ClientError::InvalidUri(t) => Failure::InvalidUri(t@),
            ClientError::Transport(m) => Failure::Transport(m@),
            ClientError::UnexpectedStatus { status, body } => Failure::UnexpectedStatus(
                *status,
                body@,
            ),
            ClientError::Decode { description, body } => Failure::Decode(description@, body@),
        }
    }
}

impl ClientError {
    /// A one-line description of the failure.
    pub fn message(&self) -> (r: String)
        ensures
            match self {
                ClientError::InvalidUri(t) => r@ == "invalid request target: "@ + t@,
                ClientError::Transport(m) => r@ == "transport failure: "@ + m@,
                ClientError::UnexpectedStatus { .. } => r@ == "unexpected status"@,
                ClientError::Decode { description, .. } => r@ == "undecodable reply: "@
                    + description@,
            },
    {
        match self {
            ClientError::InvalidUri(t) => {
                let mut r = String::from_str("invalid request target: ");
                r.append(t.as_str());
                r
            },
            ClientError::Transport(m) => {
                let mut r = String::from_str("transport failure: ");
                r.append(m.as_str());
                r
            },
            ClientError::UnexpectedStatus { .. } => String::from_str("unexpected status"),
            ClientError::Decode { description, .. } => {
                let mut r = String::from_str("undecodable reply: ");
                r.append(description.as_str());
                r
            },
        }
    }
}

} // verus!
