//! Endpoint configuration: the HTTP method and body modes the logic reads,
//! and preparation of the configured endpoint for repeated calls.

use crate::headers::{pairs_view, strings_view};
use crate::retry::{same_policy, EndpointRetryPolicy};
use mechanics_config::{HttpEndpoint, PreparedHttpEndpoint};
use std::collections::HashMap;
use vstd::multiset::Multiset;
use vstd::prelude::*;

verus! {

/// HTTP methods an endpoint may use.
#[derive(Clone, Copy, Debug, PartialEq, Eq, Structural)]
pub enum HttpMethod {
    Get,
    Post,
    Put,
    Patch,
    Delete,
    Head,
    Options,
}

/// The canonical upper-case token of a method.
pub open spec fn method_token(m: HttpMethod) -> Seq<char> {
    match m {
        HttpMethod::Get => "GET"@,
        HttpMethod::Post => "POST"@,
        HttpMethod::Put => "PUT"@,
        HttpMethod::Patch => "PATCH"@,
        HttpMethod::Delete => "DELETE"@,
        HttpMethod::Head => "HEAD"@,
        HttpMethod::Options => "OPTIONS"@,
    }
}

/// Whether a method carries a request body: `POST`, `PUT` and `PATCH` do.
pub open spec fn method_has_body(m: HttpMethod) -> bool {
    m is Post || m is Put || m is Patch
}

impl HttpMethod {
    /// The canonical upper-case method token.
    pub fn as_str(&self) -> (r: &'static str)
        ensures
            r@ == method_token(*self),
    {
        match self {
            HttpMethod::Get => "GET",
            HttpMethod::Post => "POST",
            HttpMethod::Put => "PUT",
            HttpMethod::Patch => "PATCH",
            HttpMethod::Delete => "DELETE",
            HttpMethod::Head => "HEAD",
            HttpMethod::Options => "OPTIONS",
        }
    }

    /// Whether this method supports a request body.
    pub fn supports_request_body(&self) -> (r: bool)
        ensures
            r == method_has_body(*self),
    {
        match self {
            HttpMethod::Post | HttpMethod::Put | HttpMethod::Patch => true,
            _ => false,
        }
    }
}

/// Body encoding used for requests and responses.
#[derive(Clone, Copy, Debug, PartialEq, Eq, Structural)]
pub enum EndpointBodyType {
    /// JSON (`application/json`).
    Json,
    /// UTF-8 text (`text/plain; charset=utf-8`).
    Utf8,
    /// Raw bytes (`application/octet-stream`), carried as base64 in JSON.
    Bytes,
}

#[verifier::external_type_specification]
#[verifier::external_body]
pub struct ExHttpEndpoint(HttpEndpoint);

#[verifier::external_type_specification]
#[verifier::external_body]
pub struct ExPreparedHttpEndpoint(PreparedHttpEndpoint);

// ---------------------------------------------------------------------
// Reading the endpoint. `HttpEndpoint` keeps its fields private; what its
// accessors and builders return is a function of the endpoint (and of the
// call's maps), so each result is named. Refusal messages are not named:
// the endpoint checks hash-map entries in iteration order, so which
// refusal is reported can vary from process to process.
// ---------------------------------------------------------------------

/// The endpoint's HTTP method.
pub uninterp spec fn endpoint_method_of(e: HttpEndpoint) -> HttpMethod;

/// The endpoint's request body mode after defaults (JSON when unset).
pub uninterp spec fn endpoint_request_body_type_of(e: HttpEndpoint) -> EndpointBodyType;

/// The endpoint's response body mode.
pub uninterp spec fn endpoint_response_body_type_of(e: HttpEndpoint) -> EndpointBodyType;

/// The endpoint's response size cap, if configured.
pub uninterp spec fn endpoint_response_max_bytes_of(e: HttpEndpoint) -> Option<usize>;

/// The endpoint's per-attempt timeout in milliseconds, if configured.
pub uninterp spec fn endpoint_timeout_ms_of(e: HttpEndpoint) -> Option<u64>;

/// Whether the endpoint lets non-2xx statuses through.
pub uninterp spec fn endpoint_allows_non_2xx(e: HttpEndpoint) -> bool;

/// The endpoint's retry policy.
pub uninterp spec fn endpoint_retry_policy_of(e: HttpEndpoint) -> EndpointRetryPolicy;

/// Whether the endpoint passes its own validation.
pub uninterp spec fn endpoint_valid(e: HttpEndpoint) -> bool;

/// The kind of the refusal the endpoint's validation reports. Every check
/// refuses with `InvalidInput` but the parse of the URL template, which
/// comes after the hash-map checks; so the kind depends on the endpoint
/// alone, though the message (one of several bad keys) does not.
pub uninterp spec fn endpoint_validation_kind(e: HttpEndpoint) -> ConfigErrorKind;

/// The outcome of the endpoint's runtime preparation: `None` when it
/// refuses, else the set of header names it exposes.
pub uninterp spec fn endpoint_runtime(e: HttpEndpoint) -> Option<Set<Seq<char>>>;

/// The message of the refusal the endpoint's runtime preparation reports
/// (it parses the template and reads header-name lists in their order).
pub uninterp spec fn endpoint_runtime_refusal(e: HttpEndpoint) -> Seq<char>;

/// The set of exposed header names of prepared endpoint structures.
pub uninterp spec fn exposed_response_allowlist(p: PreparedHttpEndpoint) -> Set<Seq<char>>;

/// The URL the endpoint builds from URL parameters and query slots, or
/// `None` where it refuses them.
pub uninterp spec fn endpoint_built_url(
    e: HttpEndpoint,
    url_params: Map<Seq<char>, Seq<char>>,
    queries: Map<Seq<char>, Seq<char>>,
) -> Option<Seq<char>>;

/// The endpoint's headers layered with call overrides, as a multiset of
/// `(name, value)` pairs (their order follows hash maps), or `None` where
/// the endpoint refuses the overrides.
pub uninterp spec fn endpoint_built_headers(
    e: HttpEndpoint,
    overrides: Map<Seq<char>, Seq<char>>,
) -> Option<Multiset<(Seq<char>, Seq<char>)>>;

/// `HttpEndpoint::method`, converted variant by variant.
#[verifier::external_body]
fn endpoint_method(e: &HttpEndpoint) -> (r: HttpMethod)
    ensures
        r == endpoint_method_of(*e),
{
    match e.method() {
        mechanics_config::HttpMethod::Get => HttpMethod::Get,
        mechanics_config::HttpMethod::Post => HttpMethod::Post,
        mechanics_config::HttpMethod::Put => HttpMethod::Put,
        mechanics_config::HttpMethod::Patch => HttpMethod::Patch,
        mechanics_config::HttpMethod::Delete => HttpMethod::Delete,
        mechanics_config::HttpMethod::Head => HttpMethod::Head,
        mechanics_config::HttpMethod::Options => HttpMethod::Options,
    }
}

/// `HttpEndpoint::effective_request_body_type`, converted variant by variant.
#[verifier::external_body]
fn endpoint_request_body_type(e: &HttpEndpoint) -> (r: EndpointBodyType)
    ensures
        r == endpoint_request_body_type_of(*e),
{
    match e.effective_request_body_type() {
        mechanics_config::EndpointBodyType::Json => EndpointBodyType::Json,
        mechanics_config::EndpointBodyType::Utf8 => EndpointBodyType::Utf8,
        mechanics_config::EndpointBodyType::Bytes => EndpointBodyType::Bytes,
    }
}

/// `HttpEndpoint::response_body_type`, converted variant by variant.
#[verifier::external_body]
fn endpoint_response_body_type(e: &HttpEndpoint) -> (r: EndpointBodyType)
    ensures
        r == endpoint_response_body_type_of(*e),
{
    match e.response_body_type() {
        mechanics_config::EndpointBodyType::Json => EndpointBodyType::Json,
        mechanics_config::EndpointBodyType::Utf8 => EndpointBodyType::Utf8,
        mechanics_config::EndpointBodyType::Bytes => EndpointBodyType::Bytes,
    }
}

/// `HttpEndpoint::response_max_bytes`.
#[verifier::external_body]
fn endpoint_response_max_bytes(e: &HttpEndpoint) -> (r: Option<usize>)
    ensures
        r == endpoint_response_max_bytes_of(*e),
{
    e.response_max_bytes()
}

/// `HttpEndpoint::timeout_ms`.
#[verifier::external_body]
fn endpoint_timeout_ms(e: &HttpEndpoint) -> (r: Option<u64>)
    ensures
        r == endpoint_timeout_ms_of(*e),
{
    e.timeout_ms()
}

/// `HttpEndpoint::allow_non_2xx_status`.
#[verifier::external_body]
fn endpoint_allow_non_2xx_status(e: &HttpEndpoint) -> (r: bool)
    ensures
        r == endpoint_allows_non_2xx(*e),
{
    e.allow_non_2xx_status()
}

/// `HttpEndpoint::retry_policy`, copied field by field.
#[verifier::external_body]
fn endpoint_retry_policy(e: &HttpEndpoint) -> (r: EndpointRetryPolicy)
    ensures
        same_policy(r, endpoint_retry_policy_of(*e)),
{
    let p = e.retry_policy();
    EndpointRetryPolicy {
        max_attempts: p.max_attempts,
        base_backoff_ms: p.base_backoff_ms,
        max_backoff_ms: p.max_backoff_ms,
        max_retry_delay_ms: p.max_retry_delay_ms,
        rate_limit_backoff_ms: p.rate_limit_backoff_ms,
        retry_on_io_errors: p.retry_on_io_errors,
        retry_on_timeout: p.retry_on_timeout,
        respect_retry_after: p.respect_retry_after,
        retry_on_status: p.retry_on_status.clone(),
    }
}

/// `<HttpEndpoint as Clone>::clone`. The endpoint derives `Clone` over
/// plain data (strings, maps, vectors, enums), so the copy equals the
/// endpoint it was made from; that equality is claimed.
#[verifier::external_body]
fn clone_endpoint(e: &HttpEndpoint) -> (r: HttpEndpoint)
    ensures
        r == *e,
{
    e.clone()
}

/// `HttpEndpoint::build_url`: the absolute request URL from the call's URL
/// parameters and query slots, or the endpoint's refusal as a message.
/// Its debug assertions hold for a validated endpoint, which is required.
#[verifier::external_body]
pub(crate) fn endpoint_url(
    e: &HttpEndpoint,
    url_params: &HashMap<String, String>,
    queries: &HashMap<String, String>,
) -> (r: Result<String, String>)
    requires
        endpoint_valid(*e),
    ensures
        match r {
            Ok(u) => endpoint_built_url(*e, url_params.deep_view(), queries.deep_view()) == Some(
                u@,
            ),
            Err(_) => endpoint_built_url(*e, url_params.deep_view(), queries.deep_view()) is None,
        },
{
    e.build_url(url_params, queries).map_err(|err| err.to_string())
}

/// `HttpEndpoint::build_headers`: the endpoint's headers layered with the
/// call's overrides (in hash-map order), or the endpoint's refusal as a
/// message.
#[verifier::external_body]
pub(crate) fn endpoint_headers(
    e: &HttpEndpoint,
    overrides: &HashMap<String, String>,
) -> (r: Result<Vec<(String, String)>, String>)
    ensures
        match r {
            Ok(h) => endpoint_built_headers(*e, overrides.deep_view()) == Some(
                pairs_view(h@).to_multiset(),
            ),
            Err(_) => endpoint_built_headers(*e, overrides.deep_view()) is None,
        },
{
    e.build_headers(overrides).map_err(|err| err.to_string())
}

/// Kind of a configuration failure, as `std::io::ErrorKind` reports it.
#[derive(Clone, Copy, Debug, PartialEq, Eq, Structural)]
pub enum ConfigErrorKind {
    /// `ErrorKind::InvalidInput`: the endpoint's own checks failed.
    InvalidInput,
    /// Any other kind (a URL the `url` parser refused).
    Other,
}

/// A configuration failure: its kind and its message.
#[derive(Debug, PartialEq, Eq)]
pub struct ConfigError {
    pub kind: ConfigErrorKind,
    pub message: String,
}

impl ConfigError {
    /// The failure's kind.
    pub fn kind(&self) -> (r: ConfigErrorKind)
        ensures
            r == self.kind,
    {
        self.kind
    }

    /// The failure's message.
    pub fn to_string(&self) -> (r: String)
        ensures
            r@ == self.message@,
    {
        self.message.clone()
    }
}

/// `HttpEndpoint::validate_config`, with an I/O error turned into its kind
/// and message. Success and the refusal's kind are named; the message is
/// left unsaid, since it names whichever bad hash-map key came first.
#[verifier::external_body]
fn validate_endpoint(e: &HttpEndpoint) -> (r: Result<(), ConfigError>)
    ensures
        r is Ok <==> endpoint_valid(*e),
        r matches Err(err) ==> err.kind == endpoint_validation_kind(*e),
{
    match e.validate_config() {
        Ok(()) => Ok(()),
        Err(err) => Err(ConfigError {
            kind: match err.kind() {
                std::io::ErrorKind::InvalidInput => ConfigErrorKind::InvalidInput,
                _ => ConfigErrorKind::Other,
            },
            message: err.to_string(),
        }),
    }
}

/// `HttpEndpoint::prepare_runtime`, with an I/O error turned into its kind
/// and message. Success, the exposed header names and the refusal's
/// message are named; every refusal of its source is `InvalidInput`.
#[verifier::external_body]
fn prepare_endpoint_runtime(e: &HttpEndpoint) -> (r: Result<PreparedHttpEndpoint, ConfigError>)
    ensures
        r is Ok <==> endpoint_runtime(*e) is Some,
        r matches Ok(p) ==> endpoint_runtime(*e) == Some(exposed_response_allowlist(p)),
        r matches Err(err) ==> err.kind == ConfigErrorKind::InvalidInput && err.message@
            == endpoint_runtime_refusal(*e),
{
    match e.prepare_runtime() {
        Ok(p) => Ok(p),
        Err(err) => Err(ConfigError {
            kind: match err.kind() {
                std::io::ErrorKind::InvalidInput => ConfigErrorKind::InvalidInput,
                _ => ConfigErrorKind::Other,
            },
            message: err.to_string(),
        }),
    }
}

/// `PreparedHttpEndpoint::exposed_response_allowlist`, a hash set of
/// lower-cased header names, listed in its iteration order (which varies
/// from process to process): the list holds the set, each name once.
#[verifier::external_body]
fn allowlist_of(p: &PreparedHttpEndpoint) -> (r: Vec<String>)
    ensures
        strings_view(r@).to_set() == exposed_response_allowlist(*p),
        strings_view(r@).no_duplicates(),
{
    p.exposed_response_allowlist().iter().cloned().collect()
}

/// The endpoint settings the call logic reads.
#[derive(Debug)]
pub struct EndpointSettings {
    pub method: HttpMethod,
    pub request_body_type: EndpointBodyType,
    pub response_body_type: EndpointBodyType,
    pub response_max_bytes: Option<usize>,
    pub timeout_ms: Option<u64>,
    pub allow_non_2xx_status: bool,
    pub retry_policy: EndpointRetryPolicy,
}

/// Two settings agree on every value.
pub open spec fn same_settings(a: EndpointSettings, b: EndpointSettings) -> bool {
    &&& a.method == b.method
    &&& a.request_body_type == b.request_body_type
    &&& a.response_body_type == b.response_body_type
    &&& a.response_max_bytes == b.response_max_bytes
    &&& a.timeout_ms == b.timeout_ms
    &&& a.allow_non_2xx_status == b.allow_non_2xx_status
    &&& same_policy(a.retry_policy, b.retry_policy)
}

/// The settings are the ones the endpoint's accessors give.
pub open spec fn settings_of(e: HttpEndpoint, s: EndpointSettings) -> bool {
    &&& s.method == endpoint_method_of(e)
    &&& s.request_body_type == endpoint_request_body_type_of(e)
    &&& s.response_body_type == endpoint_response_body_type_of(e)
    &&& s.response_max_bytes == endpoint_response_max_bytes_of(e)
    &&& s.timeout_ms == endpoint_timeout_ms_of(e)
    &&& s.allow_non_2xx_status == endpoint_allows_non_2xx(e)
    &&& same_policy(s.retry_policy, endpoint_retry_policy_of(e))
}

impl EndpointSettings {
    /// A copy of the settings.
    pub fn copy(&self) -> (r: Self)
        ensures
            same_settings(r, *self),
    {
        EndpointSettings {
            method: self.method,
            request_body_type: self.request_body_type,
            response_body_type: self.response_body_type,
            response_max_bytes: self.response_max_bytes,
            timeout_ms: self.timeout_ms,
            allow_non_2xx_status: self.allow_non_2xx_status,
            retry_policy: self.retry_policy.copy(),
        }
    }
}

/// Top-level configuration: one endpoint definition.
#[derive(Debug)]
pub struct HttpForwardConfig {
    endpoint: HttpEndpoint,
    settings: EndpointSettings,
}

/// Runtime-ready configuration. Only [`HttpForwardConfig::prepare`] makes
/// one; its endpoint has passed the endpoint's own validation, which URL
/// building relies on.
#[derive(Debug)]
pub struct PreparedConfig {
    endpoint: HttpEndpoint,
    prepared: PreparedHttpEndpoint,
    response_max_bytes: usize,
    settings: EndpointSettings,
    exposed_allowlist: Vec<String>,
}

impl PreparedConfig {
    /// The endpoint definition.
    pub closed spec fn endpoint_spec(&self) -> HttpEndpoint {
        self.endpoint
    }

    #[verifier::type_invariant]
    closed spec fn validated(&self) -> bool {
        &&& endpoint_valid(self.endpoint)
        &&& settings_of(self.endpoint, self.settings)
        &&& endpoint_response_max_bytes_of(self.endpoint) == Some(self.response_max_bytes)
        &&& endpoint_runtime(self.endpoint) == Some(strings_view(self.exposed_allowlist@).to_set())
        &&& exposed_response_allowlist(self.prepared) == strings_view(
            self.exposed_allowlist@,
        ).to_set()
        &&& strings_view(self.exposed_allowlist@).no_duplicates()
    }

    /// The endpoint's prepared lookup structures.
    pub closed spec fn prepared_spec(&self) -> PreparedHttpEndpoint {
        self.prepared
    }

    /// The settings read from the endpoint.
    pub closed spec fn settings_spec(&self) -> EndpointSettings {
        self.settings
    }

    /// The mandatory response size cap.
    pub closed spec fn response_max_bytes_spec(&self) -> usize {
        self.response_max_bytes
    }

    /// Lower-case names of the exposed response headers.
    pub closed spec fn allowlist_spec(&self) -> Seq<Seq<char>> {
        strings_view(self.exposed_allowlist@)
    }

    /// The endpoint definition.
    pub fn endpoint(&self) -> (r: &HttpEndpoint)
        ensures
            *r == self.endpoint_spec(),
            endpoint_valid(*r),
    {
        proof { use_type_invariant(self); }
        &self.endpoint
    }

    /// The endpoint's prepared lookup structures.
    pub fn prepared(&self) -> (r: &PreparedHttpEndpoint)
        ensures
            *r == self.prepared_spec(),
            exposed_response_allowlist(*r) == self.allowlist_spec().to_set(),
    {
        proof { use_type_invariant(self); }
        &self.prepared
    }

    /// The mandatory response size cap.
    pub fn response_max_bytes(&self) -> (r: usize)
        ensures
            r == self.response_max_bytes_spec(),
            endpoint_response_max_bytes_of(self.endpoint_spec()) == Some(r),
    {
        proof { use_type_invariant(self); }
        self.response_max_bytes
    }

    /// The settings read from the endpoint.
    pub fn settings(&self) -> (r: &EndpointSettings)
        ensures
            *r == self.settings_spec(),
            settings_of(self.endpoint_spec(), *r),
    {
        proof { use_type_invariant(self); }
        &self.settings
    }

    /// Lower-case names of the exposed response headers, in the order the
    /// endpoint's hash set gave them, each once.
    pub fn exposed_allowlist(&self) -> (r: &Vec<String>)
        ensures
            strings_view(r@) == self.allowlist_spec(),
            endpoint_runtime(self.endpoint_spec()) == Some(strings_view(r@).to_set()),
            strings_view(r@).no_duplicates(),
    {
        proof { use_type_invariant(self); }
        &self.exposed_allowlist
    }
}

impl HttpForwardConfig {
    #[verifier::type_invariant]
    closed spec fn read_from_endpoint(&self) -> bool {
        settings_of(self.endpoint, self.settings)
    }

    /// The endpoint definition.
    pub closed spec fn endpoint_spec(&self) -> HttpEndpoint {
        self.endpoint
    }

    /// The settings read from the endpoint when the configuration was built.
    pub closed spec fn settings_spec(&self) -> EndpointSettings {
        self.settings
    }

    /// Wraps an endpoint definition, reading the settings the call logic uses.
    pub fn new(endpoint: HttpEndpoint) -> (r: Self)
        ensures
            r.endpoint_spec() == endpoint,
            settings_of(endpoint, r.settings_spec()),
    {
        let settings = EndpointSettings {
            method: endpoint_method(&endpoint),
            request_body_type: endpoint_request_body_type(&endpoint),
            response_body_type: endpoint_response_body_type(&endpoint),
            response_max_bytes: endpoint_response_max_bytes(&endpoint),
            timeout_ms: endpoint_timeout_ms(&endpoint),
            allow_non_2xx_status: endpoint_allow_non_2xx_status(&endpoint),
            retry_policy: endpoint_retry_policy(&endpoint),
        };
        HttpForwardConfig { endpoint, settings }
    }

    /// The endpoint definition.
    pub fn endpoint(&self) -> (r: &HttpEndpoint)
        ensures
            *r == self.endpoint_spec(),
    {
        &self.endpoint
    }

    /// The settings read from the endpoint.
    pub fn settings(&self) -> (r: &EndpointSettings)
        ensures
            *r == self.settings_spec(),
            settings_of(self.endpoint_spec(), *r),
    {
        proof { use_type_invariant(self); }
        &self.settings
    }

    /// Validates the endpoint and prepares it for calls. A missing response
    /// size cap is refused first; then the endpoint's own validation and
    /// runtime preparation decide, and their refusals are passed on
    /// unchanged. The kind of a validation refusal is stated; its message is
    /// not, as it names whichever bad hash-map key the endpoint met first.
    pub fn prepare(&self) -> (r: Result<PreparedConfig, ConfigError>)
        ensures
            ({
                let e = self.endpoint_spec();
                let cap = self.settings_spec().response_max_bytes;
                &&& r is Ok <==> (cap is Some && endpoint_valid(e) && endpoint_runtime(e) is Some)
                &&& cap is None ==> (r matches Err(err) && err.kind == ConfigErrorKind::InvalidInput
                    && err.message@ == "missing response_max_bytes"@)
                &&& cap is Some && !endpoint_valid(e) ==> (r matches Err(err) && err.kind
                    == endpoint_validation_kind(e))
                &&& cap is Some && endpoint_valid(e) && endpoint_runtime(e) is None ==> (r matches Err(
                    err,
                ) && err.kind == ConfigErrorKind::InvalidInput && err.message@
                    == endpoint_runtime_refusal(e))
                &&& r matches Ok(p) ==> {
                    &&& cap == Some(p.response_max_bytes_spec())
                    &&& same_settings(p.settings_spec(), self.settings_spec())
                    &&& p.endpoint_spec() == e
                    &&& endpoint_runtime(e) == Some(p.allowlist_spec().to_set())
                    &&& exposed_response_allowlist(p.prepared_spec()) == p.allowlist_spec().to_set()
                    &&& p.allowlist_spec().no_duplicates()
                }
            }),
    {
        proof { use_type_invariant(self); }
        let response_max_bytes = match self.settings.response_max_bytes {
            Some(n) => n,
            None => {
                return Err(
                    ConfigError {
                        kind: ConfigErrorKind::InvalidInput,
                        message: "missing response_max_bytes".to_owned(),
                    },
                );
            },
        };
        match validate_endpoint(&self.endpoint) {
            Ok(()) => {},
            Err(err) => {
                return Err(err);
            },
        }
        let prepared = match prepare_endpoint_runtime(&self.endpoint) {
            Ok(p) => p,
            Err(err) => {
                return Err(err);
            },
        };
        let exposed = allowlist_of(&prepared);
        let settings = self.settings.copy();
        let endpoint = clone_endpoint(&self.endpoint);
        proof {
            assert(settings_of(endpoint, settings));
        }
        Ok(
            PreparedConfig {
                endpoint,
                prepared,
                response_max_bytes,
                settings,
                exposed_allowlist: exposed,
            },
        )
    }
}

} // verus!
