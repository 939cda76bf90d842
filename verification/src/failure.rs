//! The failure value that every decision of the client can end in; the
//! command layer prints it as the `{"ok": false, "error": ...}` object.
use vstd::prelude::*;

verus! {

/// The `type` field of a reported error.
#[derive(Clone, Copy, Debug, PartialEq, Eq, Structural)]
pub enum FailureKind {
    ClientError,
    HttpError,
    NetworkError,
    ParseError,
}

/// An error as the client reports it: kind, message and the optional
/// HTTP status, server error code and request step.
#[derive(Debug)]
pub struct Failure {
    pub kind: FailureKind,
    pub message: String,
    pub http_status: Option<u16>,
    pub code: Option<String>,
    pub step: Option<String>,
}

/// `f` is a client error with message `msg` and no status, code or step.
pub open spec fn is_client_failure(f: Failure, msg: Seq<char>) -> bool {
    &&& f.kind == FailureKind::ClientError
    &&& f.message@ == msg
    &&& f.http_status is None
    &&& f.code is None
    &&& f.step is None
}

/// `f` is a client error with no status, code or step.
pub open spec fn is_client(f: Failure) -> bool {
    is_client_failure(f, f.message@)
}

impl Failure {
    /// A client error with the given message.
    pub fn client(message: String) -> (f: Failure)
        ensures
            is_client_failure(f, message@),
    {
        Failure {
            kind: FailureKind::ClientError,
            message,
            http_status: None,
            code: None,
            step: None,
        }
    }

    /// A client error whose message is the given text.
    pub fn client_str(message: &str) -> (f: Failure)
        ensures
            is_client_failure(f, message@),
    {
        let mut m = String::new();
        m.append(message);
        assert(m@ =~= message@);
        Failure::client(m)
    }
}

/// The name of a failure kind as it appears in the error object.
pub open spec fn kind_name(k: FailureKind) -> Seq<char> {
    match k {
        FailureKind::ClientError => "client_error"@,
        FailureKind::HttpError => "http_error"@,
        FailureKind::NetworkError => "network_error"@,
        FailureKind::ParseError => "parse_error"@,
    }
}

/// The name of a failure kind as it appears in the error object.
pub fn failure_kind_name(k: FailureKind) -> (s: &'static str)
    ensures
        s@ == kind_name(k),
{
    match k {
        FailureKind::ClientError => "client_error",
        FailureKind::HttpError => "http_error",
        FailureKind::NetworkError => "network_error",
        FailureKind::ParseError => "parse_error",
    }
}

} // verus!
