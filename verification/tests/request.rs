use http_forward::{
    decode_response_body, encode_request_body, EndpointBodyType, Error, HttpMethod, RequestBody,
    ResponseBody,
};

fn json_body(text: &str) -> RequestBody {
    RequestBody {
        json: Ok(text.as_bytes().to_vec()),
        text: None,
    }
}

fn string_body(s: &str) -> RequestBody {
    RequestBody {
        json: Ok(format!("\"{s}\"").into_bytes()),
        text: Some(s.to_owned()),
    }
}

#[test]
fn bodiless_methods_refuse_a_body() {
    let err = encode_request_body(HttpMethod::Get, EndpointBodyType::Json, Some(&json_body("{}")))
        .unwrap_err();
    assert_eq!(
        err,
        Error::InvalidRequest("HTTP GET endpoint does not accept a request body".to_owned())
    );
    assert_eq!(
        encode_request_body(HttpMethod::Delete, EndpointBodyType::Json, None).unwrap(),
        (None, None)
    );
}

#[test]
fn json_mode_sends_json_or_null() {
    let (bytes, ct) =
        encode_request_body(HttpMethod::Post, EndpointBodyType::Json, Some(&json_body("{\"a\":1}")))
            .unwrap();
    assert_eq!(bytes.unwrap(), b"{\"a\":1}".to_vec());
    assert_eq!(ct, Some("application/json"));
    let (bytes, ct) = encode_request_body(HttpMethod::Put, EndpointBodyType::Json, None).unwrap();
    assert_eq!(bytes.unwrap(), b"null".to_vec());
    assert_eq!(ct, Some("application/json"));
    let failed = RequestBody {
        json: Err("key must be a string".to_owned()),
        text: None,
    };
    assert_eq!(
        encode_request_body(HttpMethod::Post, EndpointBodyType::Json, Some(&failed)).unwrap_err(),
        Error::InvalidRequest("invalid json request body: key must be a string".to_owned())
    );
}

#[test]
fn utf8_mode_needs_a_string() {
    let (bytes, ct) =
        encode_request_body(HttpMethod::Post, EndpointBodyType::Utf8, Some(&string_body("ping")))
            .unwrap();
    assert_eq!(bytes.unwrap(), b"ping".to_vec());
    assert_eq!(ct, Some("text/plain; charset=utf-8"));
    assert_eq!(
        encode_request_body(HttpMethod::Post, EndpointBodyType::Utf8, Some(&json_body("1")))
            .unwrap_err(),
        Error::InvalidRequest(
            "request_body_type `utf8` requires request.body to be a JSON string".to_owned()
        )
    );
    assert_eq!(
        encode_request_body(HttpMethod::Patch, EndpointBodyType::Utf8, None).unwrap(),
        (None, None)
    );
}

#[test]
fn bytes_mode_decodes_base64() {
    let (bytes, ct) = encode_request_body(
        HttpMethod::Post,
        EndpointBodyType::Bytes,
        Some(&string_body("BQQDAgE=")),
    )
    .unwrap();
    assert_eq!(bytes.unwrap(), vec![5u8, 4, 3, 2, 1]);
    assert_eq!(ct, Some("application/octet-stream"));
    let err = encode_request_body(
        HttpMethod::Post,
        EndpointBodyType::Bytes,
        Some(&string_body("not base64!")),
    )
    .unwrap_err();
    match err {
        Error::InvalidRequest(m) => {
            assert!(m.starts_with("request_body_type `bytes` expected base64 string: "))
        }
        other => panic!("unexpected {other:?}"),
    }
    assert_eq!(
        encode_request_body(HttpMethod::Post, EndpointBodyType::Bytes, Some(&json_body("[]")))
            .unwrap_err(),
        Error::InvalidRequest(
            "request_body_type `bytes` requires request.body to be a base64 JSON string"
                .to_owned()
        )
    );
}

#[test]
fn method_tokens() {
    assert_eq!(HttpMethod::Options.as_str(), "OPTIONS");
    assert!(HttpMethod::Patch.supports_request_body());
    assert!(!HttpMethod::Head.supports_request_body());
}

#[test]
fn bytes_response_body_round_trips_as_request_body() {
    let raw = vec![0_u8, 10, 20, 30, 40, 250, 255];
    let text = match decode_response_body(EndpointBodyType::Bytes, &raw).unwrap() {
        ResponseBody::Text(t) => t,
        other => panic!("expected Text, got {other:?}"),
    };
    let (bytes, content_type) =
        encode_request_body(HttpMethod::Put, EndpointBodyType::Bytes, Some(&string_body(&text)))
            .unwrap();
    assert_eq!(bytes.unwrap(), raw);
    assert_eq!(content_type, Some("application/octet-stream"));
}
