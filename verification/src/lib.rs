//! Verified core of the `http_forward` connector.
//!
//! The connector forwards one call to an HTTP endpoint described by a
//! configuration: it validates the configuration, plans each attempt
//! (URL, layered headers, body encoded by the endpoint's body mode),
//! shapes the upstream's answer (size-limited body, decoding, exposed
//! headers, non-success handling), runs the endpoint's retry policy with
//! full-jitter backoff, `Retry-After` handling and an overall deadline,
//! and maps failures onto the connector-wide error boundary.
//!
//! The transport itself (sending, streaming the body, sleeping) is done by
//! the caller, which hands each outcome back to [`RetryRun`].

mod client;
mod config;
mod error;
mod headers;
mod request;
mod response;
mod retry;
mod text;

use vstd::prelude::*;

pub use crate::client::{
    complete_attempt, map_http_error, plan_attempt, with_default_content_type, OutboundRequest,
};
pub use crate::config::{
    ConfigError, ConfigErrorKind, EndpointBodyType, EndpointSettings, HttpForwardConfig,
    HttpMethod, PreparedConfig,
};
pub use crate::error::{upstream_payload, Error, ImplementationError};
pub use crate::headers::{
    extract_exposed_headers, has_content_type_header, join_strings, retry_after_header,
    ExposedHeaders,
};
pub use crate::request::{encode_request_body, HttpForwardRequest, RequestBody};
pub use crate::response::{
    check_content_length, decode_response_body, BodyBuffer, HttpForwardResponse, ResponseBody,
};
pub use crate::retry::{
    compute_retry_delay_with_rng, exponential_backoff_ms, full_jitter_ms, parse_retry_after,
    retry_delay, should_retry, sleep_would_exceed_deadline, EndpointRetryPolicy, RetryRun,
    RetryStep, NANOS_PER_MILLI, NANOS_PER_SEC,
};
pub use crate::text::{
    compare_str, decimal_string, eq_ignore_ascii_case, parse_u64, to_ascii_lowercase, trim,
    KeyOrder,
};

verus! {

/// The connector's registration name.
pub const NAME: &'static str = "http_forward";

} // verus!
