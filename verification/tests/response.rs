use http_forward::{
    check_content_length, decimal_string, decode_response_body, parse_u64, trim, BodyBuffer,
    EndpointBodyType, Error, ResponseBody,
};

#[test]
fn json_bodies_decode_to_compact_json() {
    assert_eq!(
        decode_response_body(EndpointBodyType::Json, b"").unwrap(),
        ResponseBody::Null
    );
    assert_eq!(
        decode_response_body(EndpointBodyType::Json, b"{ \"ok\" : true }").unwrap(),
        ResponseBody::Json("{\"ok\":true}".to_owned())
    );
    match decode_response_body(EndpointBodyType::Json, b"not-json").unwrap_err() {
        Error::Internal(detail) => assert!(detail.contains("decode json response body")),
        other => panic!("expected Internal, got {other:?}"),
    }
}

#[test]
fn utf8_and_bytes_bodies() {
    assert_eq!(
        decode_response_body(EndpointBodyType::Utf8, b"pong").unwrap(),
        ResponseBody::Text("pong".to_owned())
    );
    match decode_response_body(EndpointBodyType::Utf8, &[0xff, 0xfe]).unwrap_err() {
        Error::Internal(detail) => assert!(detail.starts_with(
            "failed to decode utf8 response body as configured by response_body_type=utf8: "
        )),
        other => panic!("expected Internal, got {other:?}"),
    }
    assert_eq!(
        decode_response_body(EndpointBodyType::Bytes, &[0, 1, 2, 3, 255]).unwrap(),
        ResponseBody::Text("AAECA/8=".to_owned())
    );
}

#[test]
fn body_buffer_enforces_the_limit() {
    let mut buf = BodyBuffer::new(5);
    assert!(buf.push_chunk(b"abc").is_ok());
    assert_eq!(
        buf.push_chunk(b"def"),
        Err(Error::ResponseTooLarge { limit: 5, actual: 6 })
    );
    assert!(buf.push_chunk(b"de").is_ok());
    assert_eq!(buf.into_bytes(), b"abcde".to_vec());
}

#[test]
fn declared_length_checked_before_reading() {
    assert!(check_content_length(None, 5).is_ok());
    assert!(check_content_length(Some(5), 5).is_ok());
    assert_eq!(
        check_content_length(Some(26), 5),
        Err(Error::ResponseTooLarge { limit: 5, actual: 26 })
    );
}

#[test]
fn decimal_numbers() {
    assert_eq!(decimal_string(0), "0");
    assert_eq!(decimal_string(404), "404");
    assert_eq!(decimal_string(u64::MAX), "18446744073709551615");
    assert_eq!(parse_u64("007"), Some(7));
    assert_eq!(parse_u64("18446744073709551616"), None);
    assert_eq!(parse_u64("+"), None);
    assert_eq!(parse_u64("1 2"), None);
    assert_eq!(trim("\u{3000} a b \n"), "a b");
}

#[test]
fn trim_matches_std_on_edge_cases() {
    for s in [
        "",
        " ",
        "\t\r\n\u{85}\u{a0}",
        "x",
        "\u{2028}é ü\u{205f}",
        "a\u{200b}",
        "  inner  space  ",
    ] {
        assert_eq!(trim(s), s.trim());
    }
}

#[test]
fn bytes_bodies_use_the_padded_standard_alphabet() {
    let cases: [(&[u8], &str); 5] = [
        (b"", ""),
        (b"f", "Zg=="),
        (b"fo", "Zm8="),
        (b"foo", "Zm9v"),
        (&[0xfb, 0xff, 0xbf, 0x00], "+/+/AA=="),
    ];
    for (raw, text) in cases {
        assert_eq!(
            decode_response_body(EndpointBodyType::Bytes, raw).unwrap(),
            ResponseBody::Text(text.to_owned())
        );
    }
}
