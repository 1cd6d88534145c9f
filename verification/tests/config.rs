use http_forward::{
    complete_attempt, plan_attempt, ConfigErrorKind, EndpointBodyType, Error, HttpForwardConfig,
    HttpForwardRequest, HttpMethod, PreparedConfig, RequestBody, ResponseBody,
};
use mechanics_config::HttpEndpoint;
use serde_json::Value;
use std::collections::HashMap;

fn valid_config_json() -> Value {
    serde_json::from_str(
        r#"{
            "endpoint": {
                "method": "post",
                "url_template": "https://example.test/messages/{id}",
                "url_param_specs": {
                    "id": { "default": null, "min_bytes": 1, "max_bytes": 64 }
                },
                "query_specs": [],
                "headers": { "Authorization": "Bearer secret" },
                "overridable_request_headers": [],
                "exposed_response_headers": ["X-Request-Id"],
                "request_body_type": "json",
                "response_body_type": "json",
                "response_max_bytes": 1024,
                "timeout_ms": 1000,
                "allow_non_2xx_status": false,
                "retry_policy": {
                    "max_attempts": 1,
                    "base_backoff_ms": 100,
                    "max_backoff_ms": 100,
                    "max_retry_delay_ms": 1000,
                    "rate_limit_backoff_ms": 100,
                    "retry_on_io_errors": true,
                    "retry_on_timeout": true,
                    "respect_retry_after": true,
                    "retry_on_status": [500]
                }
            }
        }"#,
    )
    .unwrap()
}

fn config_from(mut value: Value) -> HttpForwardConfig {
    let endpoint: HttpEndpoint = serde_json::from_value(value["endpoint"].take()).unwrap();
    HttpForwardConfig::new(endpoint)
}

fn prepared() -> PreparedConfig {
    config_from(valid_config_json()).prepare().unwrap()
}

fn request(id: &str, headers: &[(&str, &str)], body: Option<RequestBody>) -> HttpForwardRequest {
    HttpForwardRequest {
        url_params: HashMap::from([("id".to_owned(), id.to_owned())]),
        queries: HashMap::new(),
        headers: headers
            .iter()
            .map(|(k, v)| ((*k).to_owned(), (*v).to_owned()))
            .collect(),
        body,
    }
}

#[test]
fn prepare_runtime_invalid_url_template_rejected() {
    let mut value = valid_config_json();
    value["endpoint"]["url_template"] = Value::from("https://example.test/messages/{id");

    let cfg = config_from(value);
    let err = cfg.prepare().unwrap_err();
    assert_eq!(err.kind(), ConfigErrorKind::InvalidInput);
}

#[test]
fn missing_response_max_bytes_is_rejected() {
    let mut value = valid_config_json();
    if let Value::Object(endpoint) = &mut value["endpoint"] {
        endpoint.remove("response_max_bytes");
    }

    let cfg = config_from(value);
    let err = cfg.prepare().unwrap_err();
    assert_eq!(err.to_string(), "missing response_max_bytes");
}

#[test]
fn prepared_config_reads_the_endpoint() {
    let p = prepared();
    assert_eq!(p.response_max_bytes(), 1024);
    assert_eq!(p.settings().method, HttpMethod::Post);
    assert_eq!(p.settings().request_body_type, EndpointBodyType::Json);
    assert_eq!(p.settings().response_body_type, EndpointBodyType::Json);
    assert_eq!(p.settings().timeout_ms, Some(1000));
    assert!(!p.settings().allow_non_2xx_status);
    assert_eq!(p.settings().retry_policy.retry_on_status, vec![500]);
    assert_eq!(p.exposed_allowlist(), &vec!["x-request-id".to_owned()]);
}

#[test]
fn plan_builds_url_headers_and_body() {
    let p = prepared();
    let body = RequestBody {
        json: Ok(b"{\"hello\":\"world\"}".to_vec()),
        text: None,
    };
    let plan = plan_attempt(&p, &request("a b", &[], Some(body))).unwrap();
    assert_eq!(plan.method, HttpMethod::Post);
    assert_eq!(plan.url, "https://example.test/messages/a%20b");
    assert_eq!(plan.timeout_ms, Some(1000));
    assert_eq!(plan.body.unwrap(), b"{\"hello\":\"world\"}".to_vec());
    assert!(plan
        .headers
        .contains(&("Authorization".to_owned(), "Bearer secret".to_owned())));
    assert!(plan
        .headers
        .contains(&("content-type".to_owned(), "application/json".to_owned())));
}

#[test]
fn plan_refuses_unknown_header_override() {
    let p = prepared();
    match plan_attempt(&p, &request("x", &[("X-Not-Allowlisted", "value")], None)) {
        Err(Error::InvalidRequest(detail)) => assert!(detail.contains("not allowlisted")),
        other => panic!("expected InvalidRequest, got {other:?}"),
    }
}

#[test]
fn completed_attempt_shapes_success_and_failure() {
    let p = prepared();
    let headers = vec![
        ("x-request-id".to_owned(), "req_404".to_owned()),
        ("retry-after".to_owned(), "1".to_owned()),
    ];
    let ok = complete_attempt(&p, 200, &headers, b"{\"ok\":true}").unwrap();
    assert!(ok.ok);
    assert_eq!(ok.status, 200);
    assert_eq!(ok.headers.get("x-request-id").unwrap(), "req_404");
    assert!(ok.headers.get("retry-after").is_none());
    assert_eq!(ok.body, ResponseBody::Json("{\"ok\":true}".to_owned()));

    match complete_attempt(&p, 404, &headers, b"{\"message\":\"missing\"}") {
        Err(Error::UpstreamNonSuccess {
            status,
            headers: exposed,
            body,
            retry_after,
        }) => {
            assert_eq!(status, 404);
            assert_eq!(exposed.get("x-request-id").unwrap(), "req_404");
            assert_eq!(body, ResponseBody::Json("{\"message\":\"missing\"}".to_owned()));
            assert_eq!(retry_after, Some("1".to_owned()));
        }
        other => panic!("expected UpstreamNonSuccess, got {other:?}"),
    }

    match complete_attempt(&p, 200, &headers, b"not-json") {
        Err(Error::Internal(detail)) => assert!(detail.contains("decode json response body")),
        other => panic!("expected Internal, got {other:?}"),
    }
}

#[test]
fn non_success_can_be_returned_when_allowed() {
    let mut value = valid_config_json();
    value["endpoint"]["allow_non_2xx_status"] = Value::from(true);
    let p = config_from(value).prepare().unwrap();
    let out = complete_attempt(&p, 404, &vec![], b"{\"ok\":false}").unwrap();
    assert_eq!(out.status, 404);
    assert!(!out.ok);
    assert_eq!(out.body, ResponseBody::Json("{\"ok\":false}".to_owned()));
}

#[test]
fn unparsable_url_template_is_an_other_error() {
    let mut value = valid_config_json();
    value["endpoint"]["url_template"] = Value::from("no scheme here/{id}");
    let err = config_from(value).prepare().unwrap_err();
    assert_eq!(err.kind(), ConfigErrorKind::Other);
}

#[test]
fn unset_request_body_type_defaults_to_json() {
    let mut value = valid_config_json();
    if let Value::Object(endpoint) = &mut value["endpoint"] {
        endpoint.remove("request_body_type");
    }
    value["endpoint"]["method"] = Value::from("get");
    let p = config_from(value).prepare().unwrap();
    assert_eq!(p.settings().method, HttpMethod::Get);
    assert_eq!(p.settings().request_body_type, EndpointBodyType::Json);
}

#[test]
fn fixed_config_and_request_yield_expected_outbound_plan() {
    let endpoint: HttpEndpoint = serde_json::from_str(
        r#"{
            "method": "post",
            "url_template": "http://upstream.test/v1/users/{user_id}/events",
            "url_param_specs": {
                "user_id": { "default": null, "min_bytes": 1, "max_bytes": 128 }
            },
            "query_specs": [
                {"type": "const", "key": "api_version", "value": "2026-04"},
                {"type": "slotted", "key": "trace_id", "slot": "trace", "mode": "required"}
            ],
            "headers": { "Authorization": "Bearer baked", "X-Static": "one" },
            "overridable_request_headers": ["Idempotency-Key"],
            "exposed_response_headers": ["X-Request-Id"],
            "request_body_type": "bytes",
            "response_body_type": "json",
            "response_max_bytes": 1024,
            "timeout_ms": 5000,
            "allow_non_2xx_status": false,
            "retry_policy": {
                "max_attempts": 1,
                "base_backoff_ms": 1,
                "max_backoff_ms": 1,
                "max_retry_delay_ms": 1000,
                "rate_limit_backoff_ms": 1,
                "retry_on_io_errors": true,
                "retry_on_timeout": true,
                "respect_retry_after": true,
                "retry_on_status": [500]
            }
        }"#,
    )
    .unwrap();
    let p = HttpForwardConfig::new(endpoint).prepare().unwrap();
    let request = HttpForwardRequest {
        url_params: HashMap::from([("user_id".to_owned(), "abc/def with space".to_owned())]),
        queries: HashMap::from([("trace".to_owned(), "trace-123".to_owned())]),
        headers: HashMap::from([("Idempotency-Key".to_owned(), "idem-1".to_owned())]),
        body: Some(RequestBody {
            json: Ok(b"\"AAoUHij6\"".to_vec()),
            text: Some("AAoUHij6".to_owned()),
        }),
    };
    let plan = plan_attempt(&p, &request).unwrap();
    assert_eq!(plan.method, HttpMethod::Post);
    assert_eq!(plan.timeout_ms, Some(5000));
    let (path, query) = plan.url.split_once('?').unwrap();
    assert_eq!(
        path,
        "http://upstream.test/v1/users/abc%2Fdef%20with%20space/events"
    );
    let pairs: Vec<&str> = query.split('&').collect();
    assert!(pairs.contains(&"api_version=2026-04"));
    assert!(pairs.contains(&"trace_id=trace-123"));
    let header = |name: &str| {
        plan.headers
            .iter()
            .find(|(k, _)| k.eq_ignore_ascii_case(name))
            .map(|(_, v)| v.clone())
    };
    assert_eq!(header("authorization").unwrap(), "Bearer baked");
    assert_eq!(header("x-static").unwrap(), "one");
    assert_eq!(header("idempotency-key").unwrap(), "idem-1");
    assert_eq!(header("content-type").unwrap(), "application/octet-stream");
    assert_eq!(plan.body.unwrap(), vec![0_u8, 10, 20, 30, 40, 250]);

    let headers = vec![("X-Request-Id".to_owned(), "req-vector".to_owned())];
    let out = complete_attempt(&p, 200, &headers, b"{\"ok\":true}").unwrap();
    assert_eq!(out.status, 200);
    assert_eq!(out.headers.get("x-request-id").unwrap(), "req-vector");
}
