use fetch_slot::cookies::{Cookie, RawCookie};
use fetch_slot::response::{
    decode_cookies, decode_exchange, decode_headers, header_form, header_value_text,
    response_form, visible, Exchange, FetchError, RawHeader, RawResponse, ResponseData,
    StatusCategory,
};

fn header(name: &str, value: &[u8]) -> RawHeader {
    RawHeader { name: name.to_string(), value: value.to_vec() }
}

fn session_record() -> RawCookie {
    RawCookie {
        name: "session".to_string(),
        value: "abc123".to_string(),
        expires: None,
        max_age: None,
        domain: None,
        path: Some("/".to_string()),
        secure: false,
        http_only: true,
    }
}

fn head(status: u16) -> RawResponse {
    RawResponse {
        status,
        content_length: Some(5),
        headers: vec![
            header("content-type", b"text/plain"),
            header("set-cookie", b"session=abc123; Path=/; HttpOnly"),
            header("set-cookie", b"lang=en"),
        ],
        cookies: vec![session_record()],
    }
}

fn model_with_status(status: u16) -> ResponseData {
    ResponseData {
        url: String::new(),
        text: String::new(),
        status,
        content_length: None,
        headers: vec![],
        cookies: vec![],
    }
}

#[test]
fn a_whole_response_is_decoded() {
    let exchange = Exchange::Answered { head: head(200), body: Ok("hello".to_string()) };
    let model = decode_exchange("http://localhost/".to_string(), exchange).ok().unwrap();
    assert_eq!(model.url, "http://localhost/");
    assert_eq!(model.text, "hello");
    assert_eq!(model.status, 200);
    assert_eq!(model.category(), StatusCategory::Success);
    assert_eq!(model.content_length, Some(5));
    assert_eq!(
        model.headers,
        vec![
            ("content-type".to_string(), "text/plain".to_string()),
            ("set-cookie".to_string(), "session=abc123; Path=/; HttpOnly".to_string()),
            ("set-cookie".to_string(), "lang=en".to_string()),
        ]
    );
    assert_eq!(model.cookies, vec![Cookie::decode(&session_record())]);
    assert_eq!(model.cookies[0].path, Some("/".to_string()));
}

#[test]
fn a_missing_length_stays_missing() {
    let mut raw = head(204);
    raw.content_length = None;
    let exchange = Exchange::Answered { head: raw, body: Ok(String::new()) };
    let model = decode_exchange("u".to_string(), exchange).ok().unwrap();
    assert_eq!(model.content_length, None);
    assert_eq!(model.text, "");
}

#[test]
fn a_failed_transport_is_a_transport_failure() {
    let outcome = decode_exchange(
        "http://nowhere.invalid/".to_string(),
        Exchange::Failed("connection refused".to_string()),
    );
    assert!(outcome == Err(FetchError::TransportFailure("connection refused".to_string())));
}

#[test]
fn an_unreadable_body_fails_the_whole_response() {
    let exchange = Exchange::Answered { head: head(200), body: Err("truncated".to_string()) };
    let outcome = decode_exchange("u".to_string(), exchange);
    assert!(outcome == Err(FetchError::DecodeFailure("truncated".to_string())));
}

#[test]
fn failures_carry_their_message() {
    assert_eq!(
        FetchError::TransportFailure("dns".to_string()).message(),
        "failed to get response, request failed: dns"
    );
    assert_eq!(
        FetchError::DecodeFailure("bad bytes".to_string()).message(),
        "failed to get text from response: bad bytes"
    );
    assert_eq!(FetchError::ChannelDisconnected.message(), "Task sender was dropped");
}

#[test]
fn header_values_of_visible_bytes_are_text() {
    assert_eq!(header_value_text(&b"text/html; charset=utf-8".to_vec()), "text/html; charset=utf-8");
    assert_eq!(header_value_text(&b"a\tb".to_vec()), "a\tb");
    assert_eq!(header_value_text(&b" ~".to_vec()), " ~");
    assert_eq!(header_value_text(&Vec::new()), "");
}

#[test]
fn header_values_with_other_bytes_read_empty() {
    assert_eq!(header_value_text(&vec![b'a', 0x80, b'b']), "");
    assert_eq!(header_value_text(&vec![0xc3, 0xa9]), "");
    assert_eq!(header_value_text(&vec![b'a', 127]), "");
    assert_eq!(header_value_text(&vec![b'a', b'\n']), "");
    assert_eq!(header_value_text(&vec![31]), "");
}

#[test]
fn visible_bytes_are_printable_ascii_and_tab() {
    for b in 0..=255u8 {
        assert_eq!(visible(b), (32..127).contains(&b) || b == b'\t');
    }
}

#[test]
fn headers_keep_order_and_duplicates() {
    let raw = vec![header("b", b"2"), header("a", b"1"), header("b", &[0xff]), header("b", b"2")];
    assert_eq!(
        decode_headers(&raw),
        vec![
            ("b".to_string(), "2".to_string()),
            ("a".to_string(), "1".to_string()),
            ("b".to_string(), String::new()),
            ("b".to_string(), "2".to_string()),
        ]
    );
    assert_eq!(decode_headers(&Vec::new()), vec![]);
}

#[test]
fn cookies_keep_their_order() {
    let mut second = session_record();
    second.name = "lang".to_string();
    second.max_age = Some(60);
    let jar = decode_cookies(&vec![session_record(), second.clone()]);
    assert_eq!(jar.len(), 2);
    assert_eq!(jar[0].name, "session");
    assert_eq!(jar[1].name, "lang");
    assert_eq!(jar[1].max_age, Some("60".to_string()));
    assert_eq!(decode_cookies(&Vec::new()), vec![]);
}

#[test]
fn status_codes_fall_into_their_classes() {
    assert_eq!(model_with_status(100).category(), StatusCategory::Informational);
    assert_eq!(model_with_status(199).category(), StatusCategory::Informational);
    assert_eq!(model_with_status(200).category(), StatusCategory::Success);
    assert_eq!(model_with_status(303).category(), StatusCategory::Redirection);
    assert_eq!(model_with_status(404).category(), StatusCategory::ClientError);
    assert_eq!(model_with_status(418).category(), StatusCategory::ClientError);
    assert_eq!(model_with_status(500).category(), StatusCategory::ServerError);
    assert_eq!(model_with_status(599).category(), StatusCategory::ServerError);
    assert_eq!(model_with_status(600).category(), StatusCategory::Unclassified);
    assert_eq!(model_with_status(99).category(), StatusCategory::Unclassified);
    assert_eq!(model_with_status(0).category(), StatusCategory::Unclassified);
}

#[test]
fn the_body_is_counted_in_bytes() {
    let mut model = model_with_status(200);
    assert_eq!(model.text_len(), 0);
    model.text = "hello".to_string();
    assert_eq!(model.text_len(), 5);
    model.text = "h\u{e9}llo \u{1f600}".to_string();
    assert_eq!(model.text_len(), 11);
}

#[test]
fn a_response_is_written_for_diagnosis_without_its_body() {
    let exchange = Exchange::Answered { head: head(200), body: Ok("hello".to_string()) };
    let model = decode_exchange("http://localhost/".to_string(), exchange).ok().unwrap();
    assert_eq!(
        model.short_form(),
        "ResponseData { url: \"http://localhost/\", text_len: 5, status: 200, \
         content_length: Some(5), headers: [(\"content-type\", \"text/plain\"), \
         (\"set-cookie\", \"session=abc123; Path=/; HttpOnly\"), (\"set-cookie\", \"lang=en\")], \
         cookies: [Cookie { name: \"session\", value: \"abc123\", expires: None, max_age: None, \
         domain: None, path: Some(\"/\"), secure: \"no\", http_only: \"yes\" }] }"
    );
    assert!(!model.short_form().contains("hello"));
}

#[test]
fn an_empty_response_is_written_with_empty_lists() {
    let mut model = model_with_status(404);
    model.text = "a long body that is not shown".to_string();
    assert_eq!(
        model.short_form(),
        "ResponseData { url: \"\", text_len: 29, status: 404, content_length: None, \
         headers: [], cookies: [] }"
    );
}

#[test]
fn forms_are_made_of_the_written_parts() {
    assert_eq!(header_form("N", "V"), "(N, V)");
    assert_eq!(header_form("", ""), "(, )");
    assert_eq!(
        response_form("U", 7, 200, Some(0), &vec!["h1".to_string(), "h2".to_string()], &vec![]),
        "ResponseData { url: U, text_len: 7, status: 200, content_length: Some(0), \
         headers: [h1, h2], cookies: [] }"
    );
}
