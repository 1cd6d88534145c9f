//! The library's failure taxonomy and its mapping onto the connector-wide
//! error boundary.

use crate::headers::{pairs_view, ExposedHeaders};
use crate::response::ResponseBody;
use crate::text::{decimal, decimal_string};
use vstd::prelude::*;
use vstd::string::StringExecFns;

verus! {

/// Failures of one connector call.
#[derive(Debug, PartialEq, Eq)]
pub enum Error {
    InvalidConfig(String),
    InvalidRequest(String),
    UpstreamNonSuccess {
        status: u16,
        headers: ExposedHeaders,
        body: ResponseBody,
        retry_after: Option<String>,
    },
    UpstreamUnreachable(String),
    UpstreamTimeout,
    ResponseTooLarge { limit: usize, actual: usize },
    Internal(String),
}

/// The connector-wide error boundary that callers of the connector see.
#[derive(Debug, PartialEq, Eq)]
pub enum ImplementationError {
    /// Connector configuration was invalid or incomplete.
    InvalidConfig { detail: String },
    /// Upstream service returned a non-success HTTP status.
    UpstreamError { status: u16, body: String },
    /// Upstream service could not be reached.
    UpstreamUnreachable { detail: String },
    /// Upstream service did not respond within the allowed time.
    UpstreamTimeout,
    /// Request or response failed schema validation.
    SchemaValidationFailed { detail: String },
    /// Upstream response body exceeded the configured size limit.
    ResponseTooLarge { limit: usize, actual: usize },
    /// Caller-supplied request was invalid.
    InvalidRequest { detail: String },
    /// An internal error occurred in the connector implementation.
    Internal { detail: String },
}

/// A lower-case hexadecimal digit, for `0 <= n < 16`.
pub open spec fn hex_digit(n: u32) -> char {
    "0123456789abcdef"@[n as int]
}

/// How a JSON string literal writes one character: a quote, a backslash
/// and the control characters are escaped (the short forms `\b \f \n \r \t`
/// where they exist, else `\u00` and two lower-case hex digits); every
/// other character stands for itself.
pub open spec fn json_escape_char(c: char) -> Seq<char> {
    let n = c as u32;
    if c == '"' {
        seq!['\\', '"']
    } else if c == '\\' {
        seq!['\\', '\\']
    } else if n == 0x08 {
        seq!['\\', 'b']
    } else if n == 0x0C {
        seq!['\\', 'f']
    } else if n == 0x0A {
        seq!['\\', 'n']
    } else if n == 0x0D {
        seq!['\\', 'r']
    } else if n == 0x09 {
        seq!['\\', 't']
    } else if n < 0x20 {
        seq!['\\', 'u', '0', '0', hex_digit(n / 16), hex_digit(n % 16)]
    } else {
        seq![c]
    }
}

/// The characters of a string, each written as in a JSON string literal.
pub open spec fn json_escaped(s: Seq<char>) -> Seq<char>
    decreases s.len(),
{
    if s.len() == 0 {
        Seq::empty()
    } else {
        json_escaped(s.drop_last()) + json_escape_char(s.last())
    }
}

/// The JSON string literal of a string: its escaped characters in quotes.
pub open spec fn json_string_literal(s: Seq<char>) -> Seq<char> {
    seq!['"'] + json_escaped(s) + seq!['"']
}

/// `serde_json::to_string` of a `&str`. Its source writes a quote, then
/// the string with exactly the escapes of its escape table (quote,
/// backslash, `\b \t \n \f \r`, and `\u00xx` with lower-case hex for the
/// other bytes below 0x20), then a quote, into a `Vec`, which cannot fail:
/// the result is claimed to be the literal above.
#[verifier::external_body]
fn json_quote(s: &str) -> (r: String)
    ensures
        r@ == json_string_literal(s@),
{
    serde_json::to_string(s).unwrap_or_default()
}

/// The JSON text of a response body.
pub open spec fn body_json(b: ResponseBody) -> Seq<char> {
    match b {
        ResponseBody::Null => "null"@,
        ResponseBody::Text(s) => json_string_literal(s@),
        ResponseBody::Json(t) => t@,
    }
}

/// One `"name":"value"` member of a JSON object.
pub open spec fn member_json(p: (Seq<char>, Seq<char>)) -> Seq<char> {
    json_string_literal(p.0) + ":"@ + json_string_literal(p.1)
}

/// The members of a JSON object, comma-separated, in the given order.
pub open spec fn members_json(entries: Seq<(Seq<char>, Seq<char>)>) -> Seq<char>
    decreases entries.len(),
{
    if entries.len() == 0 {
        Seq::empty()
    } else if entries.len() == 1 {
        member_json(entries[0])
    } else {
        members_json(entries.drop_last()) + ","@ + member_json(entries.last())
    }
}

/// The compact JSON text of `{"body": .., "headers": {..}, "status": ..}`,
/// keys in sorted order as a JSON map with ordered keys writes them.
pub open spec fn upstream_payload_spec(
    status: u16,
    entries: Seq<(Seq<char>, Seq<char>)>,
    body: ResponseBody,
) -> Seq<char> {
    "{\"body\":"@ + body_json(body) + ",\"headers\":{"@ + members_json(entries) + "},\"status\":"@
        + decimal(status as nat) + "}"@
}

/// Writes the JSON payload that carries a non-success upstream answer:
/// status, exposed headers (in key order) and body.
pub fn upstream_payload(status: u16, headers: &ExposedHeaders, body: &ResponseBody) -> (r: String)
    ensures
        r@ == upstream_payload_spec(status, headers.entries_view(), *body),
{
    let mut out = "{\"body\":".to_owned();
    match body {
        ResponseBody::Null => out.append("null"),
        ResponseBody::Text(s) => {
            let q = json_quote(s.as_str());
            out.append(q.as_str());
        },
        ResponseBody::Json(t) => out.append(t.as_str()),
    }
    out.append(",\"headers\":{");
    let entries = headers.entries();
    let ghost ev = pairs_view(entries@);
    let ghost prefix = out@;
    let mut i: usize = 0;
    while i < entries.len()
        invariant
            i <= entries.len(),
            ev == pairs_view(entries@),
            out@ == prefix + members_json(ev.take(i as int)),
        decreases entries.len() - i,
    {
        assert(ev.take(i + 1).drop_last() =~= ev.take(i as int));
        if i > 0 {
            out.append(",");
        } else {
            assert(ev.take(0) =~= Seq::<(Seq<char>, Seq<char>)>::empty());
        }
        let k = json_quote(entries[i].0.as_str());
        let v = json_quote(entries[i].1.as_str());
        out.append(k.as_str());
        out.append(":");
        out.append(v.as_str());
        assert(ev[i as int] == (entries@[i as int].0@, entries@[i as int].1@));
        i = i + 1;
    }
    assert(ev.take(entries.len() as int) =~= ev);
    out.append("},\"status\":");
    let digits = decimal_string(status as u64);
    out.append(digits.as_str());
    out.append("}");
    out
}

/// How a failure appears at the connector boundary: each failure keeps its
/// kind and detail; a non-success upstream answer becomes an upstream error
/// with the same status whose body is the JSON payload of status, exposed
/// headers and body.
pub open spec fn maps_to_wire(e: Error, w: ImplementationError) -> bool {
    match e {
        Error::InvalidConfig(d) => w matches ImplementationError::InvalidConfig { detail } && detail@ == d@,
        Error::InvalidRequest(d) => w matches ImplementationError::InvalidRequest { detail } && detail@ == d@,
        Error::UpstreamNonSuccess { status, headers, body, .. } => w matches ImplementationError::UpstreamError { status: s, body: b } && s == status && b@ == upstream_payload_spec(status, headers.entries_view(), body),
        Error::UpstreamUnreachable(d) => w matches ImplementationError::UpstreamUnreachable { detail } && detail@ == d@,
        Error::UpstreamTimeout => w == ImplementationError::UpstreamTimeout,
        Error::ResponseTooLarge { limit, actual } => w == ImplementationError::ResponseTooLarge { limit, actual },
        Error::Internal(d) => w matches ImplementationError::Internal { detail } && detail@ == d@,
    }
}

impl From<Error> for ImplementationError {
    fn from(value: Error) -> (r: Self)
        ensures
            maps_to_wire(value, r),
    {
        match value {
            Error::InvalidConfig(detail) => ImplementationError::InvalidConfig { detail },
            Error::InvalidRequest(detail) => ImplementationError::InvalidRequest { detail },
            Error::UpstreamNonSuccess { status, headers, body, .. } => {
                let encoded = upstream_payload(status, &headers, &body);
                ImplementationError::UpstreamError { status, body: encoded }
            },
            Error::UpstreamUnreachable(detail) => ImplementationError::UpstreamUnreachable { detail },
            Error::UpstreamTimeout => ImplementationError::UpstreamTimeout,
            Error::ResponseTooLarge { limit, actual } => ImplementationError::ResponseTooLarge {
                limit,
                actual,
            },
            Error::Internal(detail) => ImplementationError::Internal { detail },
        }
    }
}

// The conversion's contract is the `ensures` of `from` above (over string
// views); no single spec value is promised through `from_spec`.
impl vstd::std_specs::convert::FromSpecImpl<Error> for ImplementationError {
    open spec fn obeys_from_spec() -> bool {
        false
    }

    open spec fn from_spec(v: Error) -> Self {
        vstd::pervasive::arbitrary()
    }
}

} // verus!
