//! The request model and request-body encoding by body mode.

use crate::config::{method_has_body, method_token, EndpointBodyType, HttpMethod};
use crate::error::Error;
use crate::response::{decoded_as, ResponseBody};
use crate::text::bytes_to_vec;
use std::collections::HashMap;
use vstd::prelude::*;
use vstd::string::StringExecFns;

verus! {

/// A request body as the caller sent it: its JSON encoding, and its text
/// when it is a JSON string.
#[derive(Debug, PartialEq, Eq)]
pub struct RequestBody {
    /// The body's compact JSON encoding, or why it could not be encoded.
    pub json: Result<Vec<u8>, String>,
    /// The string, when the body is a JSON string.
    pub text: Option<String>,
}

/// One call request.
#[derive(Debug, PartialEq, Eq)]
pub struct HttpForwardRequest {
    /// URL template slot values.
    pub url_params: HashMap<String, String>,
    /// Slotted query values keyed by slot name.
    pub queries: HashMap<String, String>,
    /// Per-call header overrides.
    pub headers: HashMap<String, String>,
    /// Optional body, interpreted by the endpoint's body mode.
    pub body: Option<RequestBody>,
}

/// Decoded bytes of standard base64 text, or the decoder's error message,
/// as the `base64` crate's standard engine gives them.
pub uninterp spec fn base64_decoded(text: Seq<char>) -> Result<Seq<u8>, Seq<char>>;

/// `base64::engine::general_purpose::STANDARD.decode`, with a decode error
/// turned into its message. The result is named, not described.
#[verifier::external_body]
fn base64_decode(text: &str) -> (r: Result<Vec<u8>, String>)
    ensures
        match r {
            Ok(b) => base64_decoded(text@) == Ok::<Seq<u8>, Seq<char>>(b@),
            Err(m) => base64_decoded(text@) == Err::<Seq<u8>, Seq<char>>(m@),
        },
{
    match base64::Engine::decode(&base64::engine::general_purpose::STANDARD, text) {
        Ok(bytes) => Ok(bytes),
        Err(e) => Err(e.to_string()),
    }
}

/// What the outbound request carries as body: the bytes and the default
/// content type, or neither.
pub type EncodedBody = (Option<Vec<u8>>, Option<&'static str>);

/// The JSON encoding of `null`.
pub open spec fn json_null() -> Seq<u8> {
    seq![0x6Eu8, 0x75u8, 0x6Cu8, 0x6Cu8]
}

/// The outcome of encoding a request body, over string views:
/// `Ok((bytes, content type))` or `Err(message of an invalid-request error)`.
pub open spec fn encode_request_body_spec(
    method: HttpMethod,
    body_type: EndpointBodyType,
    body: Option<RequestBody>,
) -> Result<(Option<Seq<u8>>, Option<Seq<char>>), Seq<char>> {
    if !method_has_body(method) {
        if body is Some {
            Err("HTTP "@ + method_token(method) + " endpoint does not accept a request body"@)
        } else {
            Ok((None, None))
        }
    } else {
        match body_type {
            EndpointBodyType::Json => match body {
                None => Ok((Some(json_null()), Some("application/json"@))),
                Some(b) => match b.json {
                    Ok(bytes) => Ok((Some(bytes@), Some("application/json"@))),
                    Err(e) => Err("invalid json request body: "@ + e@),
                },
            },
            EndpointBodyType::Utf8 => match body {
                None => Ok((None, None)),
                Some(b) => match b.text {
                    Some(t) => Ok((Some(vstd::utf8::encode_utf8(t@)), Some("text/plain; charset=utf-8"@))),
                    None => Err(
                        "request_body_type `utf8` requires request.body to be a JSON string"@,
                    ),
                },
            },
            EndpointBodyType::Bytes => match body {
                None => Ok((None, None)),
                Some(b) => match b.text {
                    Some(t) => match base64_decoded(t@) {
                        Ok(bytes) => Ok((Some(bytes), Some("application/octet-stream"@))),
                        Err(m) => Err("request_body_type `bytes` expected base64 string: "@ + m),
                    },
                    None => Err(
                        "request_body_type `bytes` requires request.body to be a base64 JSON string"@,
                    ),
                },
            },
        }
    }
}

/// The view of an encoded body.
pub open spec fn encoded_view(e: EncodedBody) -> (Option<Seq<u8>>, Option<Seq<char>>) {
    (
        match e.0 {
            Some(b) => Some(b@),
            None => None,
        },
        match e.1 {
            Some(c) => Some(c@),
            None => None,
        },
    )
}

fn message(prefix: &str, detail: &str) -> (r: String)
    ensures
        r@ == prefix@ + detail@,
{
    let mut s = prefix.to_owned();
    s.append(detail);
    s
}

/// Encodes the request body for the outbound call by the endpoint's body
/// mode: bodiless methods refuse a body; JSON mode sends the body's JSON (or
/// `null`); UTF-8 mode sends a JSON string's text; bytes mode sends the
/// base64-decoded bytes of a JSON string. Each mode brings its content type.
pub fn encode_request_body(
    method: HttpMethod,
    body_type: EndpointBodyType,
    body: Option<&RequestBody>,
) -> (r: Result<EncodedBody, Error>)
    ensures
        match r {
            Ok(e) => encode_request_body_spec(
                method,
                body_type,
                match body {
                    Some(b) => Some(*b),
                    None => None,
                },
            ) == Ok::<(Option<Seq<u8>>, Option<Seq<char>>), Seq<char>>(encoded_view(e)),
            Err(e) => e matches Error::InvalidRequest(m) && encode_request_body_spec(
                method,
                body_type,
                match body {
                    Some(b) => Some(*b),
                    None => None,
                },
            ) == Err::<(Option<Seq<u8>>, Option<Seq<char>>), Seq<char>>(m@),
        },
{
    if !method.supports_request_body() {
        if body.is_some() {
            let mut m = "HTTP ".to_owned();
            m.append(method.as_str());
            m.append(" endpoint does not accept a request body");
            return Err(Error::InvalidRequest(m));
        }
        return Ok((None, None));
    }
    match body_type {
        EndpointBodyType::Json => match body {
            None => {
                let null: Vec<u8> = vec![0x6Eu8, 0x75u8, 0x6Cu8, 0x6Cu8];
                assert(null@ == json_null());
                Ok((Some(null), Some("application/json")))
            },
            Some(b) => match &b.json {
                Ok(bytes) => Ok((Some(bytes.clone()), Some("application/json"))),
                Err(e) => Err(Error::InvalidRequest(message("invalid json request body: ", e.as_str()))),
            },
        },
        EndpointBodyType::Utf8 => match body {
            None => Ok((None, None)),
            Some(b) => match &b.text {
                Some(t) => {
                    let bytes = bytes_to_vec(t.as_str().as_bytes());
                    Ok((Some(bytes), Some("text/plain; charset=utf-8")))
                },
                None => Err(
                    Error::InvalidRequest(
                        "request_body_type `utf8` requires request.body to be a JSON string".to_owned(),
                    ),
                ),
            },
        },
        EndpointBodyType::Bytes => match body {
            None => Ok((None, None)),
            Some(b) => match &b.text {
                Some(t) => match base64_decode(t.as_str()) {
                    Ok(bytes) => Ok((Some(bytes), Some("application/octet-stream"))),
                    Err(m) => Err(
                        Error::InvalidRequest(
                            message("request_body_type `bytes` expected base64 string: ", m.as_str()),
                        ),
                    ),
                },
                None => Err(
                    Error::InvalidRequest(
                        "request_body_type `bytes` requires request.body to be a base64 JSON string".to_owned(),
                    ),
                ),
            },
        },
    }
}

/// A body read in bytes mode, sent back as the string of a request body in
/// bytes mode, encodes to the same bytes with the octet-stream content type.
pub proof fn lemma_bytes_body_round_trip(
    method: HttpMethod,
    bytes: Seq<u8>,
    decoded: ResponseBody,
    body: RequestBody,
)
    requires
        method_has_body(method),
        decoded_as(EndpointBodyType::Bytes, bytes, decoded),
        decoded matches ResponseBody::Text(s) && body.text matches Some(t) && t@ == s@,
    ensures
        encode_request_body_spec(method, EndpointBodyType::Bytes, Some(body)) == Ok::<
            (Option<Seq<u8>>, Option<Seq<char>>),
            Seq<char>,
        >((Some(bytes), Some("application/octet-stream"@))),
{
}

} // verus!
