//! Response shaping: the size-limited body buffer, body decoding by body
//! mode, and the `{status, ok, headers, body}` envelope.

use crate::config::EndpointBodyType;
use crate::error::Error;
use crate::headers::ExposedHeaders;
use crate::request::base64_decoded;
use vstd::prelude::*;
use vstd::string::StringExecFns;

verus! {

/// A decoded response body.
#[derive(Debug, PartialEq, Eq)]
pub enum ResponseBody {
    /// JSON `null` (an empty body in JSON mode).
    Null,
    /// A JSON string: UTF-8 text, or base64 of raw bytes.
    Text(String),
    /// Any JSON value, held as its compact JSON text.
    Json(String),
}

/// Success response envelope.
#[derive(Debug, PartialEq, Eq)]
pub struct HttpForwardResponse {
    /// Upstream HTTP status code.
    pub status: u16,
    /// `true` for a 2xx status.
    pub ok: bool,
    /// Exposed response headers, keyed by lower-case name.
    pub headers: ExposedHeaders,
    /// Decoded response body.
    pub body: ResponseBody,
}

/// Rejects a response whose declared `Content-Length` exceeds `limit`
/// before any of its body is read.
pub fn check_content_length(content_length: Option<u64>, limit: usize) -> (r: Result<(), Error>)
    ensures
        match content_length {
            Some(n) if n > limit => r == Err::<(), Error>(
                Error::ResponseTooLarge {
                    limit,
                    actual: if n <= usize::MAX {
                        n as usize
                    } else {
                        usize::MAX
                    },
                },
            ),
            _ => r == Ok::<(), Error>(()),
        },
{
    match content_length {
        Some(n) => {
            if n > limit as u64 {
                let actual: usize = if n <= usize::MAX as u64 {
                    n as usize
                } else {
                    usize::MAX
                };
                return Err(Error::ResponseTooLarge { limit, actual });
            }
            Ok(())
        },
        None => Ok(()),
    }
}

/// A response body being read chunk by chunk, never longer than its limit.
pub struct BodyBuffer {
    bytes: Vec<u8>,
    limit: usize,
}

impl View for BodyBuffer {
    type V = Seq<u8>;

    closed spec fn view(&self) -> Seq<u8> {
        self.bytes@
    }
}

impl BodyBuffer {
    /// The size limit in bytes.
    pub closed spec fn limit(&self) -> usize {
        self.limit
    }

    #[verifier::type_invariant]
    closed spec fn within_limit(&self) -> bool {
        self.bytes@.len() <= self.limit
    }

    /// An empty buffer with the given limit.
    pub fn new(limit: usize) -> (r: Self)
        ensures
            r@ == Seq::<u8>::empty(),
            r.limit() == limit,
    {
        BodyBuffer { bytes: Vec::new(), limit }
    }

    /// Appends a chunk unless the body would then exceed the limit; the
    /// buffer is left unchanged on failure.
    pub fn push_chunk(&mut self, chunk: &[u8]) -> (r: Result<(), Error>)
        ensures
            final(self).limit() == old(self).limit(),
            old(self)@.len() + chunk@.len() > usize::MAX ==> (r matches Err(Error::Internal(m)) && m@
                == "response body length overflow"@) && final(self)@ == old(self)@,
            old(self)@.len() + chunk@.len() <= usize::MAX && old(self)@.len() + chunk@.len() > old(
                self,
            ).limit() ==> r == Err::<(), Error>(
                Error::ResponseTooLarge {
                    limit: old(self).limit(),
                    actual: (old(self)@.len() + chunk@.len()) as usize,
                },
            ) && final(self)@ == old(self)@,
            old(self)@.len() + chunk@.len() <= old(self).limit() ==> r is Ok && final(self)@ == old(
                self,
            )@ + chunk@,
            final(self)@.len() <= final(self).limit(),
    {
        proof { use_type_invariant(&*self); }
        let len = self.bytes.len();
        if chunk.len() > usize::MAX - len {
            let m = "response body length overflow".to_owned();
            return Err(Error::Internal(m));
        }
        let next_len = len + chunk.len();
        if next_len > self.limit {
            return Err(Error::ResponseTooLarge { limit: self.limit, actual: next_len });
        }
        let mut bytes: Vec<u8> = Vec::new();
        std::mem::swap(&mut bytes, &mut self.bytes);
        let ghost start = bytes@;
        let mut i: usize = 0;
        while i < chunk.len()
            invariant
                i <= chunk@.len(),
                bytes@ == start + chunk@.take(i as int),
                start.len() + chunk@.len() <= self.limit,
            decreases chunk@.len() - i,
        {
            bytes.push(chunk[i]);
            assert(chunk@.take(i + 1) =~= chunk@.take(i as int).push(chunk@[i as int]));
            i = i + 1;
        }
        assert(chunk@.take(chunk@.len() as int) =~= chunk@);
        self.bytes = bytes;
        Ok(())
    }

    /// The bytes read so far.
    pub fn into_bytes(self) -> (r: Vec<u8>)
        ensures
            r@ == self@,
            r@.len() <= self.limit(),
    {
        proof { use_type_invariant(&self); }
        self.bytes
    }
}

/// Compact JSON text of the value that JSON bytes parse to, or the parser's
/// error message, as `serde_json` gives them.
pub uninterp spec fn json_compact_text(bytes: Seq<u8>) -> Result<Seq<char>, Seq<char>>;

/// `serde_json::from_slice::<serde_json::Value>`, with the parsed value
/// written back as compact JSON text (`Value`'s `Display`) and a parse error
/// turned into its message. The result is named, not described.
#[verifier::external_body]
fn reencode_json(bytes: &[u8]) -> (r: Result<String, String>)
    ensures
        match r {
            Ok(t) => json_compact_text(bytes@) == Ok::<Seq<char>, Seq<char>>(t@),
            Err(m) => json_compact_text(bytes@) == Err::<Seq<char>, Seq<char>>(m@),
        },
{
    match serde_json::from_slice::<serde_json::Value>(bytes) {
        Ok(value) => Ok(value.to_string()),
        Err(e) => Err(e.to_string()),
    }
}

/// The message of the UTF-8 error `std::str::from_utf8` reports for bytes.
pub uninterp spec fn utf8_error_text(bytes: Seq<u8>) -> Seq<char>;

/// `std::str::from_utf8`: its documentation states that it succeeds exactly
/// on valid UTF-8, with the text those bytes encode; an error is turned
/// into its message, which is named, not described.
#[verifier::external_body]
fn utf8_text(bytes: &[u8]) -> (r: Result<String, String>)
    ensures
        match r {
            Ok(t) => vstd::utf8::valid_utf8(bytes@) && t@ == vstd::utf8::decode_utf8(bytes@),
            Err(m) => !vstd::utf8::valid_utf8(bytes@) && m@ == utf8_error_text(bytes@),
        },
{
    match std::str::from_utf8(bytes) {
        Ok(text) => Ok(text.to_owned()),
        Err(e) => Err(e.to_string()),
    }
}

/// The character of a 6-bit value in the standard base64 alphabet.
pub open spec fn base64_char(n: int) -> char {
    "ABCDEFGHIJKLMNOPQRSTUVWXYZabcdefghijklmnopqrstuvwxyz0123456789+/"@[n]
}

/// Standard base64 text of bytes: each group of three bytes becomes four
/// characters of six bits each; a final group of one or two bytes is
/// zero-filled to whole characters and padded with `=` to four.
pub open spec fn base64_encoded(bytes: Seq<u8>) -> Seq<char>
    decreases bytes.len(),
{
    if bytes.len() == 0 {
        Seq::empty()
    } else if bytes.len() == 1 {
        let b0 = bytes[0] as int;
        seq![base64_char(b0 / 4), base64_char((b0 % 4) * 16), '=', '=']
    } else if bytes.len() == 2 {
        let b0 = bytes[0] as int;
        let b1 = bytes[1] as int;
        seq![
            base64_char(b0 / 4),
            base64_char((b0 % 4) * 16 + b1 / 16),
            base64_char((b1 % 16) * 4),
            '=',
        ]
    } else {
        let b0 = bytes[0] as int;
        let b1 = bytes[1] as int;
        let b2 = bytes[2] as int;
        seq![
            base64_char(b0 / 4),
            base64_char((b0 % 4) * 16 + b1 / 16),
            base64_char((b1 % 16) * 4 + b2 / 64),
            base64_char(b2 % 64),
        ] + base64_encoded(bytes.skip(3))
    }
}

/// `base64::engine::general_purpose::STANDARD.encode`: the standard
/// alphabet with `=` padding (its `PAD` configuration), as written out
/// above. The standard engine decodes canonically padded text without
/// trailing bits, which is what it writes; so decoding the text gives the
/// bytes back, as claimed here.
#[verifier::external_body]
fn base64_encode(bytes: &[u8]) -> (r: String)
    ensures
        r@ == base64_encoded(bytes@),
        (base64_decoded(r@) == Ok::<Seq<u8>, Seq<char>>(bytes@)),
{
    base64::Engine::encode(&base64::engine::general_purpose::STANDARD, bytes)
}

fn internal_error(prefix: &str, detail: &str) -> (r: Error)
    ensures
        r matches Error::Internal(m) && m@ == prefix@ + detail@,
{
    let mut m = prefix.to_owned();
    m.append(detail);
    Error::Internal(m)
}

/// The body that decoding `bytes` in mode `body_type` yields, when it
/// succeeds.
pub open spec fn decoded_as(body_type: EndpointBodyType, bytes: Seq<u8>, b: ResponseBody) -> bool {
    match body_type {
        EndpointBodyType::Json => if bytes.len() == 0 {
            b == ResponseBody::Null
        } else {
            &&& json_compact_text(bytes) matches Ok(t)
            &&& b matches ResponseBody::Json(s)
            &&& s@ == t
        },
        EndpointBodyType::Utf8 => {
            &&& vstd::utf8::valid_utf8(bytes)
            &&& b matches ResponseBody::Text(s)
            &&& s@ == vstd::utf8::decode_utf8(bytes)
        },
        EndpointBodyType::Bytes => {
            &&& b matches ResponseBody::Text(s)
            &&& s@ == base64_encoded(bytes)
            &&& base64_decoded(s@) == Ok::<Seq<u8>, Seq<char>>(bytes)
        },
    }
}

/// The error that decoding `bytes` in mode `body_type` fails with, when it
/// fails.
pub open spec fn decode_failure(body_type: EndpointBodyType, bytes: Seq<u8>, e: Error) -> bool {
    match body_type {
        EndpointBodyType::Json => {
            &&& bytes.len() > 0
            &&& json_compact_text(bytes) matches Err(m)
            &&& e matches Error::Internal(d)
            &&& d@
                == "failed to decode json response body as configured by response_body_type=json: "@
                + m
        },
        EndpointBodyType::Utf8 => {
            &&& !vstd::utf8::valid_utf8(bytes)
            &&& e matches Error::Internal(d)
            &&& d@
                == "failed to decode utf8 response body as configured by response_body_type=utf8: "@
                + utf8_error_text(bytes)
        },
        EndpointBodyType::Bytes => false,
    }
}

/// Decoding fails exactly when no body can be decoded.
pub proof fn lemma_decode_outcomes_exclusive(
    body_type: EndpointBodyType,
    bytes: Seq<u8>,
    b: ResponseBody,
    e: Error,
)
    ensures
        !(decoded_as(body_type, bytes, b) && decode_failure(body_type, bytes, e)),
{
}

/// Decodes a response body by the endpoint's response body mode: JSON (an
/// empty body is `null`), UTF-8 text, or base64 of the raw bytes.
pub fn decode_response_body(body_type: EndpointBodyType, bytes: &[u8]) -> (r: Result<
    ResponseBody,
    Error,
>)
    ensures
        match r {
            Ok(b) => decoded_as(body_type, bytes@, b),
            Err(e) => decode_failure(body_type, bytes@, e),
        },
{
    match body_type {
        EndpointBodyType::Json => {
            if bytes.len() == 0 {
                Ok(ResponseBody::Null)
            } else {
                match reencode_json(bytes) {
                    Ok(t) => Ok(ResponseBody::Json(t)),
                    Err(m) => Err(
                        internal_error(
                            "failed to decode json response body as configured by response_body_type=json: ",
                            m.as_str(),
                        ),
                    ),
                }
            }
        },
        EndpointBodyType::Utf8 => match utf8_text(bytes) {
            Ok(t) => Ok(ResponseBody::Text(t)),
            Err(m) => Err(
                internal_error(
                    "failed to decode utf8 response body as configured by response_body_type=utf8: ",
                    m.as_str(),
                ),
            ),
        },
        EndpointBodyType::Bytes => Ok(ResponseBody::Text(base64_encode(bytes))),
    }
}

} // verus!
