//! Reading what the service answers: error bodies, ids, upload targets, and
//! the failures that the client reports for them.
use vstd::prelude::*;
use crate::text::{self, owned, starts_with_str, take_chars_str};
use crate::failure::{Failure, FailureKind};
use crate::task_body::JsonField;

verus! {

/// A JSON value present under a key: its string, when it is one, and its
/// JSON text (`Value::to_string`).
#[derive(Debug)]
pub struct JsonValueText {
    pub text: Option<String>,
    pub rendered: String,
}

/// The fields of an error response that the client reads. When the body is
/// JSON but not an object, every field is absent.
#[derive(Debug)]
pub struct ErrorBody {
    pub code: Option<JsonValueText>,
    pub err_code: Option<JsonValueText>,
    pub message: JsonField,
    pub msg: JsonField,
    pub err_msg: JsonField,
}

/// The error code: from `code`, else `err_code`; a non-empty string as it
/// is, any other value as JSON text; empty when neither key is present.
pub open spec fn error_code(b: ErrorBody) -> Seq<char> {
    let v = if b.code is Some {
        b.code
    } else {
        b.err_code
    };
    match v {
        None => Seq::empty(),
        Some(v) => match v.text {
            Some(s) => if s@.len() > 0 {
                s@
            } else {
                v.rendered@
            },
            None => v.rendered@,
        },
    }
}

/// The error message: the first present of `message`, `msg` and `err_msg`
/// when it is a string, else the whole response text.
pub open spec fn error_message(b: ErrorBody, text: Seq<char>) -> Seq<char> {
    let f = if b.message.is_present() {
        b.message
    } else if b.msg.is_present() {
        b.msg
    } else {
        b.err_msg
    };
    f.text_or(text)
}

/// The code and message of an error response: read from the body when it
/// is JSON, else no code and the first 200 characters of the text.
pub open spec fn error_body_of(text: Seq<char>, body: Option<ErrorBody>) -> (Seq<char>, Seq<char>) {
    match body {
        Some(b) => (error_code(b), error_message(b, text)),
        None => (Seq::empty(), text::take_chars(text, 200)),
    }
}

/// The code and message of an error response with text `text`; `body` is
/// the response parsed as JSON, when it is JSON.
pub fn parse_error_body(text: &str, body: &Option<ErrorBody>) -> (r: (String, String))
    ensures
        (r.0@, r.1@) == error_body_of(text@, *body),
{
    match body {
        None => (String::new(), owned(take_chars_str(text, 200))),
        Some(b) => {
            let v = if b.code.is_some() {
                &b.code
            } else {
                &b.err_code
            };
            let code = match v {
                None => String::new(),
                Some(v) => match &v.text {
                    Some(s) => if s.as_str().is_empty() {
                        v.rendered.clone()
                    } else {
                        s.clone()
                    },
                    None => v.rendered.clone(),
                },
            };
            let f = if b.message.present() {
                &b.message
            } else if b.msg.present() {
                &b.msg
            } else {
                &b.err_msg
            };
            let msg = owned(f.text_or_str(text));
            (code, msg)
        },
    }
}

/// The failure for an HTTP error status with the code and message read
/// from its body; an empty code is left out.
pub fn http_failure(status: u16, code: String, message: String, step: Option<&str>) -> (f: Failure)
    ensures
        f.kind == FailureKind::HttpError,
        f.message@ == message@,
        f.http_status == Some(status),
        match f.code {
            Some(c) => code@.len() > 0 && c@ == code@,
            None => code@.len() == 0,
        },
        opt_view(f.step) == opt_str_view(step),
{
    let c = if code.as_str().is_empty() {
        None
    } else {
        Some(code)
    };
    Failure { kind: FailureKind::HttpError, message, http_status: Some(status), code: c, step: opt_owned(step) }
}

pub open spec fn opt_view(o: Option<String>) -> Option<Seq<char>> {
    match o {
        Some(s) => Some(s@),
        None => None,
    }
}

pub open spec fn opt_str_view(o: Option<&str>) -> Option<Seq<char>> {
    match o {
        Some(s) => Some(s@),
        None => None,
    }
}

fn opt_owned(o: Option<&str>) -> (r: Option<String>)
    ensures
        opt_view(r) == opt_str_view(o),
{
    match o {
        Some(s) => Some(owned(s)),
        None => None,
    }
}

/// The failure for a transport error (or `unknown error`) at a step.
pub fn network_failure(message: &str, step: Option<&str>) -> (f: Failure)
    ensures
        f.kind == FailureKind::NetworkError,
        f.message@ == message@,
        f.http_status is None,
        f.code is None,
        opt_view(f.step) == opt_str_view(step),
{
    Failure {
        kind: FailureKind::NetworkError,
        message: owned(message),
        http_status: None,
        code: None,
        step: opt_owned(step),
    }
}

/// The failure for a response body that is not JSON: its first 200
/// characters in the message.
pub fn invalid_json_failure(text: &str, step: Option<&str>) -> (f: Failure)
    ensures
        f.kind == FailureKind::ParseError,
        f.message@ == "Response is not valid JSON: "@ + text::take_chars(text@, 200),
        f.http_status is None,
        f.code is None,
        opt_view(f.step) == opt_str_view(step),
{
    let mut m = String::new();
    m.append("Response is not valid JSON: ");
    m.append(take_chars_str(text, 200));
    Failure { kind: FailureKind::ParseError, message: m, http_status: None, code: None, step: opt_owned(step) }
}

/// The failure for an upload (PUT) answered with an error status: the
/// first 200 characters of the response in the message.
pub fn put_failure(status: u16, text: &str, step: Option<&str>) -> (f: Failure)
    ensures
        f.kind == FailureKind::HttpError,
        f.message@ == "PUT failed: "@ + text::take_chars(text@, 200),
        f.http_status == Some(status),
        f.code is None,
        opt_view(f.step) == opt_str_view(step),
{
    let mut m = String::new();
    m.append("PUT failed: ");
    m.append(take_chars_str(text, 200));
    Failure { kind: FailureKind::HttpError, message: m, http_status: Some(status), code: None, step: opt_owned(step) }
}

/// An id as the service sends it.
#[derive(Debug)]
pub enum IdValue {
    Absent,
    Text(String),
    /// A number, with its JSON text.
    Number(String),
    Other,
}

/// An id as text: a string as it is, a number as its JSON text, else empty.
pub open spec fn id_text_of(v: IdValue) -> Seq<char> {
    match v {
        IdValue::Text(s) => s@,
        IdValue::Number(n) => n@,
        _ => Seq::empty(),
    }
}

/// An id as text.
pub fn id_text(v: &IdValue) -> (r: String)
    ensures
        r@ == id_text_of(*v),
{
    match v {
        IdValue::Text(s) => s.clone(),
        IdValue::Number(n) => n.clone(),
        _ => String::new(),
    }
}

/// The task id of a submission response (`data` is the response as JSON
/// text), or a parse error when there is none.
pub fn require_task_id(id: &IdValue, data: &str) -> (r: Result<String, Failure>)
    ensures
        match r {
            Ok(s) => s@ == id_text_of(*id) && s@.len() > 0,
            Err(f) => id_text_of(*id).len() == 0 && f.kind == FailureKind::ParseError && f.message@
                == "No task id in response: "@ + data@ && f.http_status is None && f.code is None
                && f.step is None,
        },
{
    let s = id_text(id);
    if s.as_str().is_empty() {
        let mut m = String::new();
        m.append("No task id in response: ");
        m.append(data);
        return Err(Failure { kind: FailureKind::ParseError, message: m, http_status: None, code: None, step: None });
    }
    Ok(s)
}

/// The upload id and PUT URL of a create-upload response (`data` is the
/// response as JSON text); a parse error at step `create_upload` when
/// either is missing or empty.
pub fn upload_target(id: &IdValue, put_url: &JsonField, data: &str) -> (r: Result<(String, String), Failure>)
    ensures
        match r {
            Ok((i, u)) => i@ == id_text_of(*id) && u@ == put_url.text_or(Seq::empty()) && i@.len()
                > 0 && u@.len() > 0,
            Err(f) => (id_text_of(*id).len() == 0 || put_url.text_or(Seq::empty()).len() == 0)
                && f.kind == FailureKind::ParseError && f.message@
                == "Unexpected create_upload response: "@ + data@ && f.http_status is None
                && f.code is None && opt_view(f.step) == Some("create_upload"@),
        },
{
    let i = id_text(id);
    let u = put_url.text_or_str(text::empty_str());
    if i.as_str().is_empty() || u.is_empty() {
        let mut m = String::new();
        m.append("Unexpected create_upload response: ");
        m.append(data);
        return Err(
            Failure {
                kind: FailureKind::ParseError,
                message: m,
                http_status: None,
                code: None,
                step: Some(owned("create_upload")),
            },
        );
    }
    Ok((i, owned(u)))
}

/// The reference to an upload: `ssupload:?id={id}`.
pub open spec fn upload_uri_of(id: Seq<char>) -> Seq<char> {
    "ssupload:?id="@ + id
}

pub fn upload_uri(id: &str) -> (r: String)
    ensures
        r@ == upload_uri_of(id@),
{
    let mut r = String::new();
    r.append("ssupload:?id=");
    r.append(id);
    r
}

/// The upload id inside an upload reference, or the empty text when `uri`
/// is not one (`strip_prefix("ssupload:?id=").unwrap_or("")`).
pub open spec fn upload_id_in(uri: Seq<char>) -> Seq<char> {
    if text::starts_with(uri, "ssupload:?id="@) {
        uri.skip("ssupload:?id="@.len() as int)
    } else {
        Seq::empty()
    }
}

pub fn upload_id_of(uri: &str) -> (r: String)
    ensures
        r@ == upload_id_in(uri@),
{
    let prefix = "ssupload:?id=";
    if starts_with_str(uri, prefix) {
        let n = uri.unicode_len();
        let k = prefix.unicode_len();
        owned(uri.substring_char(k, n))
    } else {
        String::new()
    }
}

/// Reading the id back out of an upload reference gives the id.
pub proof fn law_upload_uri_roundtrip(id: Seq<char>)
    ensures
        upload_id_in(upload_uri_of(id)) == id,
{
    let p = "ssupload:?id="@;
    assert((p + id).take(p.len() as int) =~= p);
    assert((p + id).skip(p.len() as int) =~= id);
}

} // verus!
