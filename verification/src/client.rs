//! One attempt of an outbound call, split around the transport: planning
//! the request from configuration and call input, and shaping the
//! upstream's answer into a response or a failure.

use crate::config::{
    endpoint_built_headers, endpoint_built_url, endpoint_headers, endpoint_url, HttpMethod,
    PreparedConfig,
};
use crate::error::Error;
use crate::headers::{
    exposed_map, extract_exposed_headers, first_value, has_content_type_header, pairs_view,
    retry_after_header,
};
use crate::request::{encode_request_body, encode_request_body_spec, HttpForwardRequest};
use crate::response::{decode_failure, decode_response_body, decoded_as, HttpForwardResponse};
use crate::text::eq_ignore_ascii_case_spec;
use vstd::prelude::*;

verus! {

/// Maps a transport failure: a timeout stays a timeout, anything else makes
/// the upstream unreachable, with the transport's message.
pub fn map_http_error(timed_out: bool, detail: String) -> (r: Error)
    ensures
        timed_out ==> r == Error::UpstreamTimeout,
        !timed_out ==> r == Error::UpstreamUnreachable(detail),
{
    if timed_out {
        Error::UpstreamTimeout
    } else {
        Error::UpstreamUnreachable(detail)
    }
}

/// `true` for a 2xx status.
pub open spec fn success_status(status: u16) -> bool {
    200 <= status <= 299
}

/// Every status from 200 through 299 counts as success, and no other does.
pub proof fn lemma_success_is_the_2xx_range(status: u16)
    ensures
        success_status(status) <==> (200 <= status && status <= 299),
        success_status(200) && success_status(201) && success_status(204) && success_status(299),
        !success_status(199) && !success_status(300),
{
}

/// The request the transport sends.
#[derive(Debug)]
pub struct OutboundRequest {
    pub method: HttpMethod,
    pub url: String,
    pub timeout_ms: Option<u64>,
    pub headers: Vec<(String, String)>,
    pub body: Option<Vec<u8>>,
}

/// The layered headers, plus the body mode's content type unless a
/// `content-type` header is already among them.
pub open spec fn with_content_type(
    layered: Seq<(Seq<char>, Seq<char>)>,
    content_type: Option<Seq<char>>,
) -> Seq<(Seq<char>, Seq<char>)> {
    match content_type {
        Some(ct) => if exists|i: int|
            0 <= i < layered.len() && eq_ignore_ascii_case_spec(
                #[trigger] layered[i].0,
                "content-type"@,
            ) {
            layered
        } else {
            layered.push(("content-type"@, ct))
        },
        None => layered,
    }
}

/// A header at any position carrying the `content-type` name (ASCII case
/// ignored) keeps the default from being added; without one, the default
/// is appended after the layered headers.
pub proof fn lemma_content_type_anywhere_suppresses_default(
    layered: Seq<(Seq<char>, Seq<char>)>,
    content_type: Option<Seq<char>>,
    i: int,
)
    requires
        0 <= i < layered.len(),
        eq_ignore_ascii_case_spec(layered[i].0, "content-type"@),
    ensures
        with_content_type(layered, content_type) == layered,
{
}

/// Without a `content-type` header anywhere, the default is appended and
/// every layered header is kept in place.
pub proof fn lemma_default_appended_without_content_type(
    layered: Seq<(Seq<char>, Seq<char>)>,
    content_type: Seq<char>,
)
    requires
        forall|i: int|
            0 <= i < layered.len() ==> !eq_ignore_ascii_case_spec(
                #[trigger] layered[i].0,
                "content-type"@,
            ),
    ensures
        with_content_type(layered, Some(content_type)) == layered.push(
            ("content-type"@, content_type),
        ),
        with_content_type(layered, None) == layered,
{
}

/// Adds the default content type unless a `content-type` header is set.
pub fn with_default_content_type(layered: Vec<(String, String)>, content_type: Option<&str>) -> (r:
    Vec<(String, String)>)
    ensures
        pairs_view(r@) == with_content_type(
            pairs_view(layered@),
            match content_type {
                Some(c) => Some(c@),
                None => None,
            },
        ),
        content_type is None ==> r@ == layered@,
        (exists|i: int|
            0 <= i < layered@.len() && eq_ignore_ascii_case_spec(
                #[trigger] layered@[i].0@,
                "content-type"@,
            )) ==> r@ == layered@,
        content_type matches Some(c) ==> ((!exists|i: int|
            0 <= i < layered@.len() && eq_ignore_ascii_case_spec(
                #[trigger] layered@[i].0@,
                "content-type"@,
            )) ==> pairs_view(r@) == pairs_view(layered@).push(("content-type"@, c@))
            && r@.take(layered@.len() as int) == layered@),
{
    let mut headers = layered;
    let ghost lv = pairs_view(headers@);
    assert forall|i: int| 0 <= i < headers@.len() implies #[trigger] lv[i].0 == headers@[i].0@ by {}
    match content_type {
        Some(ct) => {
            if !has_content_type_header(headers.as_slice()) {
                assert(!exists|i: int|
                    0 <= i < lv.len() && eq_ignore_ascii_case_spec(
                        #[trigger] lv[i].0,
                        "content-type"@,
                    ));
                headers.push(("content-type".to_owned(), ct.to_owned()));
                assert(pairs_view(headers@) =~= lv.push(("content-type"@, ct@)));
            } else {
                let ghost i = choose|i: int|
                    0 <= i < headers@.len() && eq_ignore_ascii_case_spec(
                        #[trigger] headers@[i].0@,
                        "content-type"@,
                    );
                assert(lv[i].0 == headers@[i].0@);
            }
        },
        None => {},
    }
    headers
}

/// Plans one attempt: the endpoint builds the URL and the layered headers
/// from the call input (refusals become invalid-request failures), the body
/// is encoded by the endpoint's request body mode, and the mode's content
/// type is added unless a `content-type` header is set.
pub fn plan_attempt(prepared: &PreparedConfig, request: &HttpForwardRequest) -> (r: Result<
    OutboundRequest,
    Error,
>)
    ensures
        ({
            let ep = prepared.endpoint_spec();
            let url = endpoint_built_url(
                ep,
                request.url_params.deep_view(),
                request.queries.deep_view(),
            );
            let built = endpoint_built_headers(ep, request.headers.deep_view());
            let enc = encode_request_body_spec(
                prepared.settings_spec().method,
                prepared.settings_spec().request_body_type,
                request.body,
            );
            &&& r is Ok <==> (url is Some && built is Some && enc is Ok)
            // refusals, in the order the attempt is planned
            &&& url is None ==> (r matches Err(e) && e is InvalidRequest)
            &&& url is Some && built is None ==> (r matches Err(e) && e is InvalidRequest)
            &&& url is Some && built is Some && enc is Err ==> (r matches Err(e) && e matches Error::InvalidRequest(d) && d@ == enc->Err_0)
            &&& r matches Ok(o) ==> {
                &&& o.method == prepared.settings_spec().method
                &&& o.timeout_ms == prepared.settings_spec().timeout_ms
                &&& Some(o.url@) == url
                &&& exists|layered: Seq<(Seq<char>, Seq<char>)>, ct: Option<Seq<char>>|
                    #![trigger with_content_type(layered, ct)]
                    built == Some(layered.to_multiset()) && enc
                        == Ok::<(Option<Seq<u8>>, Option<Seq<char>>), Seq<char>>(
                        (
                            match o.body {
                                Some(b) => Some(b@),
                                None => None,
                            },
                            ct,
                        ),
                    ) && pairs_view(o.headers@) == with_content_type(layered, ct)
            }
        }),
{
    let settings = prepared.settings();
    let method = settings.method;
    let url = match endpoint_url(prepared.endpoint(), &request.url_params, &request.queries) {
        Ok(u) => u,
        Err(m) => {
            return Err(Error::InvalidRequest(m));
        },
    };
    let layered = match endpoint_headers(prepared.endpoint(), &request.headers) {
        Ok(h) => h,
        Err(m) => {
            return Err(Error::InvalidRequest(m));
        },
    };
    let (body, content_type) = match encode_request_body(
        method,
        settings.request_body_type,
        request.body.as_ref(),
    ) {
        Ok(e) => e,
        Err(e) => {
            return Err(e);
        },
    };
    let ghost lv = pairs_view(layered@);
    let ghost ct = match content_type {
        Some(c) => Some(c@),
        None => None,
    };
    let headers = with_default_content_type(layered, content_type);
    let r = OutboundRequest { method, url, timeout_ms: settings.timeout_ms, headers, body };
    assert(pairs_view(r.headers@) == with_content_type(lv, ct));
    Ok(r)
}

/// Shapes the upstream's answer to one attempt: the body is decoded by the
/// endpoint's response body mode, the allowlisted headers are exposed, and
/// a non-2xx status fails the attempt unless the endpoint allows it (the
/// failure keeps status, headers, body and the first `Retry-After`).
pub fn complete_attempt(
    prepared: &PreparedConfig,
    status: u16,
    headers: &Vec<(String, String)>,
    body: &[u8],
) -> (r: Result<HttpForwardResponse, Error>)
    ensures
        ({
            let bt = prepared.settings_spec().response_body_type;
            let exposed = exposed_map(pairs_view(headers@), prepared.allowlist_spec());
            let allow = prepared.settings_spec().allow_non_2xx_status;
            ||| r matches Err(e) && decode_failure(bt, body@, e)
            ||| r matches Ok(resp) && {
                &&& resp.status == status
                &&& resp.ok == (200 <= status && status <= 299)
                &&& (200 <= status && status <= 299) || allow
                &&& resp.headers@ == exposed
                &&& decoded_as(bt, body@, resp.body)
            }
            ||| r matches Err(Error::UpstreamNonSuccess { status: s, headers: h, body: b, retry_after: ra }) && {
                &&& s == status
                &&& !(200 <= status && status <= 299) && !allow
                &&& h@ == exposed
                &&& decoded_as(bt, body@, b)
                &&& match ra {
                    Some(v) => first_value(pairs_view(headers@), "retry-after"@) == Some(v@),
                    None => first_value(pairs_view(headers@), "retry-after"@) is None,
                }
            }
        }),
{
    let ok = 200 <= status && status <= 299;
    let settings = prepared.settings();
    let decoded = match decode_response_body(settings.response_body_type, body) {
        Ok(b) => b,
        Err(e) => {
            return Err(e);
        },
    };
    let exposed = extract_exposed_headers(headers, prepared.exposed_allowlist());
    if !ok && !settings.allow_non_2xx_status {
        return Err(
            Error::UpstreamNonSuccess {
                status,
                headers: exposed,
                body: decoded,
                retry_after: retry_after_header(headers),
            },
        );
    }
    Ok(HttpForwardResponse { status, ok, headers: exposed, body: decoded })
}

} // verus!
