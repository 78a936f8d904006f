use kit::inject_message::{
    decode_payload, encode_payload, fits_base64, make_envelope, make_message, normalize_url,
    parse_response, response_from_document, send_request, MessageError, Response, ResponseError,
};
use kit::machine::Effect;

fn document(text: &str) -> serde_json::Value {
    serde_json::from_str(text).unwrap()
}

#[test]
fn message_without_payload_has_null_data() {
    let message = make_message("vfs:distro:sys", Some(15), "{}", None, None, None).unwrap();
    let expected = document(
        r#"{"node":null,"process":"vfs:distro:sys","inherit":false,"expects_response":15,
            "body":"{}","metadata":null,"context":null,"mime":"application/octet-stream",
            "data":null}"#,
    );
    assert_eq!(message, expected);
    assert!(message.get("data").unwrap().is_null());
}

#[test]
fn message_has_exactly_the_nine_members() {
    let message = make_message("p:q:r", None, "body", Some("node.os"), None, None).unwrap();
    let members = message.as_object().unwrap();
    assert_eq!(members.len(), 9);
    assert_eq!(members.get("node").unwrap().as_str(), Some("node.os"));
    assert_eq!(members.get("process").unwrap().as_str(), Some("p:q:r"));
    assert_eq!(members.get("inherit").unwrap().as_bool(), Some(false));
    assert!(members.get("expects_response").unwrap().is_null());
    assert_eq!(members.get("body").unwrap().as_str(), Some("body"));
    assert!(members.get("metadata").unwrap().is_null());
    assert!(members.get("context").unwrap().is_null());
    assert_eq!(members.get("mime").unwrap().as_str(), Some("application/octet-stream"));
    assert!(members.get("data").unwrap().is_null());
}

#[test]
fn message_with_inline_payload_carries_base64() {
    let message = make_message("p", Some(5), "b", None, Some(b"hello"), None).unwrap();
    assert_eq!(message.get("data").unwrap().as_str(), Some("aGVsbG8="));
    assert_eq!(message.get("expects_response").unwrap().as_u64(), Some(5));
}

#[test]
fn message_with_file_payload_carries_base64() {
    let message = make_message("p", Some(5), "b", None, None, Some(&[0u8, 255, 16])).unwrap();
    assert_eq!(message.get("data").unwrap().as_str(), Some("AP8Q"));
}

#[test]
fn message_with_both_payloads_is_refused() {
    let r = make_message("p", Some(5), "b", None, Some(b"a"), Some(b"b"));
    assert_eq!(r, Err(MessageError::PayloadConflict));
}

#[test]
fn message_with_empty_payload_carries_empty_text() {
    let message = make_message("p", None, "b", None, Some(b""), None).unwrap();
    assert_eq!(message.get("data").unwrap().as_str(), Some(""));
}

#[test]
fn payload_round_trip() {
    let samples: Vec<Vec<u8>> = vec![
        vec![],
        vec![0],
        vec![1, 2],
        vec![1, 2, 3],
        vec![255, 254, 253, 252],
        b"any carnal pleasure".to_vec(),
        (0..=255u8).collect(),
    ];
    for bytes in samples {
        let text = encode_payload(&bytes);
        assert_eq!(text.len(), (bytes.len() + 2) / 3 * 4);
        assert_eq!(decode_payload(&text), Some(bytes));
    }
}

#[test]
fn payload_text_is_standard_base64_with_padding() {
    assert_eq!(encode_payload(b"any carnal pleas"), "YW55IGNhcm5hbCBwbGVhcw==");
    assert_eq!(encode_payload(b"any carnal pleasu"), "YW55IGNhcm5hbCBwbGVhc3U=");
    assert_eq!(encode_payload(b"any carnal pleasur"), "YW55IGNhcm5hbCBwbGVhc3Vy");
    assert_eq!(encode_payload(&[0xfb, 0xff]), "+/8=");
}

#[test]
fn payload_that_is_not_base64_is_refused() {
    assert_eq!(decode_payload("not base64!"), None);
    assert_eq!(decode_payload("aGVsbG8"), None);
    assert_eq!(decode_payload("aGVsbG8="), Some(b"hello".to_vec()));
}

#[test]
fn payload_round_trip_through_a_response() {
    let bytes = b"round trip".to_vec();
    let text = encode_payload(&bytes);
    let blob: Vec<String> = text.bytes().map(|b| b.to_string()).collect();
    let content = format!("{{\"body\":[111,107],\"lazy_load_blob\":[{}]}}", blob.join(","));
    let response = parse_response(200, &content).unwrap();
    assert_eq!(response.body, "ok");
    assert_eq!(response.lazy_load_blob, Some(text.into_bytes()));
    assert_eq!(response.lazy_load_blob_utf8, Some(Some("round trip".to_string())));
}

#[test]
fn fits_base64_tells_the_limit() {
    assert!(fits_base64(0));
    assert!(fits_base64(1));
    assert!(fits_base64(1 << 20));
    assert!(fits_base64(usize::MAX / 4 * 3));
    assert!(!fits_base64(usize::MAX / 4 * 3 + 1));
    assert!(!fits_base64(usize::MAX));
}

#[test]
fn url_forms_normalize_to_the_same() {
    let expected = "http://h:1/rpc:distro:sys/message";
    assert_eq!(normalize_url("http://h:1/"), expected);
    assert_eq!(normalize_url("http://h:1"), expected);
    assert_eq!(normalize_url("http://h:1/rpc:distro:sys/message"), expected);
    assert_eq!(normalize_url("http://h:1/rpc:distro:sys/message/"), expected);
}

#[test]
fn url_edge_cases() {
    assert_eq!(normalize_url(""), "/rpc:distro:sys/message");
    assert_eq!(normalize_url("/"), "/rpc:distro:sys/message");
    assert_eq!(normalize_url("h//"), "h//rpc:distro:sys/message");
    assert_eq!(normalize_url("h/rpc:distro:sys/message/"), "h/rpc:distro:sys/message");
    assert_eq!(
        normalize_url("http://h:1/rpc:distro:sys/message/"),
        "http://h:1/rpc:distro:sys/message"
    );
    assert_eq!(
        normalize_url("h/rpc:distro:sys/message//"),
        "h/rpc:distro:sys/message//rpc:distro:sys/message"
    );
    assert_eq!(normalize_url("/rpc:distro:sys/message/"), "/rpc:distro:sys/message");
    assert_eq!(normalize_url("/rpc:distro:sys/message"), "/rpc:distro:sys/message");
    assert_eq!(normalize_url("http://h\u{e9}/"), "http://h\u{e9}/rpc:distro:sys/message");
}

#[test]
fn url_normalization_is_idempotent() {
    for url in ["http://h:1/", "http://h:1", "", "a/b/", "a//", "h/rpc:distro:sys/message/"] {
        let once = normalize_url(url);
        assert_eq!(normalize_url(&once), once);
    }
}

#[test]
fn send_request_posts_to_the_endpoint() {
    let message = document(r#"{"a":1}"#);
    let effect = send_request("http://localhost:8080/", message.clone());
    assert_eq!(
        effect,
        Effect::Post { url: "http://localhost:8080/rpc:distro:sys/message".to_string(), message }
    );
}

#[test]
fn decode_body_only() {
    let response = parse_response(200, r#"{"body":[112,97,115,115]}"#).unwrap();
    assert_eq!(
        response,
        Response { body: "pass".to_string(), lazy_load_blob_utf8: None, lazy_load_blob: None }
    );
}

#[test]
fn decode_null_blob() {
    let response = parse_response(200, r#"{"body":[112],"lazy_load_blob":null}"#).unwrap();
    assert_eq!(response.body, "p");
    assert_eq!(response.lazy_load_blob, None);
    assert_eq!(response.lazy_load_blob_utf8, None);
}

#[test]
fn decode_array_blob() {
    let response = parse_response(200, r#"{"body":[],"lazy_load_blob":[1,2,3]}"#).unwrap();
    assert_eq!(response.body, "");
    assert_eq!(response.lazy_load_blob, Some(vec![1, 2, 3]));
    assert_eq!(response.lazy_load_blob_utf8, None);
}

#[test]
fn decode_object_blob() {
    let content = r#"{"body":[],"lazy_load_blob":{"mime":"x","bytes":[1,2,3]}}"#;
    let response = parse_response(200, content).unwrap();
    assert_eq!(response.lazy_load_blob, Some(vec![1, 2, 3]));
}

#[test]
fn decode_blob_display() {
    // "aGk=" is the base64 text of "hi"; "/w==" that of the byte 255.
    let response = parse_response(200, r#"{"body":[],"lazy_load_blob":[97,71,107,61]}"#).unwrap();
    assert_eq!(response.lazy_load_blob, Some(b"aGk=".to_vec()));
    assert_eq!(response.lazy_load_blob_utf8, Some(Some("hi".to_string())));
    let response = parse_response(200, r#"{"body":[],"lazy_load_blob":[47,119,61,61]}"#).unwrap();
    assert_eq!(response.lazy_load_blob_utf8, Some(None));
    let response = parse_response(200, r#"{"body":[],"lazy_load_blob":[]}"#).unwrap();
    assert_eq!(response.lazy_load_blob, Some(vec![]));
    assert_eq!(response.lazy_load_blob_utf8, Some(Some(String::new())));
}

#[test]
fn decode_refuses_other_blob_shapes() {
    let blob = |shape: &str| {
        parse_response(200, &format!("{{\"body\":[],\"lazy_load_blob\":{}}}", shape))
    };
    assert_eq!(blob("\"text\""), Err(ResponseError::BlobNotBytes));
    assert_eq!(blob("7"), Err(ResponseError::BlobNotBytes));
    assert_eq!(blob("true"), Err(ResponseError::BlobNotBytes));
    assert_eq!(blob("{}"), Err(ResponseError::BlobFormat));
    assert_eq!(blob("{\"bytes\":\"text\"}"), Err(ResponseError::BlobFormat));
    assert_eq!(blob("{\"bytes\":null}"), Err(ResponseError::BlobFormat));
    assert_eq!(blob("[1,256]"), Err(ResponseError::BlobFormat));
    assert_eq!(blob("[1,-1]"), Err(ResponseError::BlobFormat));
    assert_eq!(blob("[1.5]"), Err(ResponseError::BlobFormat));
    assert_eq!(blob("[\"a\"]"), Err(ResponseError::BlobFormat));
    assert_eq!(blob("{\"bytes\":[300]}"), Err(ResponseError::BlobFormat));
}

#[test]
fn decode_refuses_bad_status() {
    assert_eq!(parse_response(404, r#"{"body":[112]}"#), Err(ResponseError::Status(404)));
    assert_eq!(parse_response(500, "not json"), Err(ResponseError::Status(500)));
    assert_eq!(parse_response(201, r#"{"body":[112]}"#), Err(ResponseError::Status(201)));
}

#[test]
fn decode_refuses_bad_content() {
    assert_eq!(parse_response(200, "not json"), Err(ResponseError::InvalidJson));
    assert_eq!(parse_response(200, ""), Err(ResponseError::InvalidJson));
    assert_eq!(parse_response(200, r#"{"body":[1]} x"#), Err(ResponseError::InvalidJson));
    assert_eq!(parse_response(200, "{}"), Err(ResponseError::MissingBody));
    assert_eq!(parse_response(200, "[1,2]"), Err(ResponseError::MissingBody));
    assert_eq!(parse_response(200, "null"), Err(ResponseError::MissingBody));
    assert_eq!(parse_response(200, r#"{"body":"pass"}"#), Err(ResponseError::BodyNotBytes));
    assert_eq!(parse_response(200, r#"{"body":null}"#), Err(ResponseError::BodyNotBytes));
    assert_eq!(parse_response(200, r#"{"body":[112,256]}"#), Err(ResponseError::BodyNotBytes));
    assert_eq!(parse_response(200, r#"{"body":[112,"a"]}"#), Err(ResponseError::BodyNotBytes));
    assert_eq!(parse_response(200, r#"{"body":[112,-1]}"#), Err(ResponseError::BodyNotBytes));
    assert_eq!(parse_response(200, r#"{"body":[255]}"#), Err(ResponseError::BodyNotUtf8));
    assert_eq!(parse_response(200, r#"{"body":[195]}"#), Err(ResponseError::BodyNotUtf8));
}

#[test]
fn decode_body_error_comes_before_blob_error() {
    let content = r#"{"body":"x","lazy_load_blob":"y"}"#;
    assert_eq!(parse_response(200, content), Err(ResponseError::BodyNotBytes));
}

#[test]
fn decode_multibyte_body() {
    let response = parse_response(200, r#"{"body":[195,169,226,130,172]}"#).unwrap();
    assert_eq!(response.body, "\u{e9}\u{20ac}");
}

#[test]
fn decode_last_duplicate_member_counts() {
    let response = parse_response(200, r#"{"body":[97],"body":[98]}"#).unwrap();
    assert_eq!(response.body, "b");
}

#[test]
fn decode_from_document() {
    let doc = document(r#"{"body":[104,105],"lazy_load_blob":{"bytes":[9]}}"#);
    let response = response_from_document(&doc).unwrap();
    assert_eq!(response.body, "hi");
    assert_eq!(response.lazy_load_blob, Some(vec![9]));
    assert_eq!(response.lazy_load_blob_utf8, None);
}

#[test]
fn response_in_words() {
    let with_text = Response {
        body: "b".to_string(),
        lazy_load_blob_utf8: Some(Some("text".to_string())),
        lazy_load_blob: Some(vec![1]),
    };
    assert_eq!(with_text.to_text(), "Response:\nbody: b\nblob: text");
    let with_bytes = Response {
        body: "b".to_string(),
        lazy_load_blob_utf8: Some(None),
        lazy_load_blob: Some(vec![1, 2, 3]),
    };
    assert_eq!(with_bytes.to_text(), "Response:\nbody: b\nblob: Some([1, 2, 3])");
    let without = Response {
        body: String::new(),
        lazy_load_blob_utf8: None,
        lazy_load_blob: None,
    };
    assert_eq!(without.to_text(), "Response:\nbody: \nblob: None");
}

#[test]
fn envelope_carries_the_payload_text_as_given() {
    let envelope = make_envelope("p", Some(1), "b", Some("n"), Some("dGV4dA=="));
    assert_eq!(envelope, make_message("p", Some(1), "b", Some("n"), Some(b"text"), None).unwrap());
    let bare = make_envelope("p", None, "", None, None);
    assert_eq!(bare, make_message("p", None, "", None, None, None).unwrap());
}

#[test]
fn message_payload_reads_back_as_given() {
    for bytes in [&b""[..], &b"a"[..], &[0u8, 1, 2, 253, 254, 255][..]] {
        let inline = make_message("p", None, "b", None, Some(bytes), None).unwrap();
        let data = inline.get("data").unwrap().as_str().unwrap();
        assert_eq!(decode_payload(data), Some(bytes.to_vec()));
        let file = make_message("p", None, "b", None, None, Some(bytes)).unwrap();
        assert_eq!(file, inline);
    }
}

#[test]
fn send_request_strips_the_slash_before_it_looks_for_the_endpoint() {
    let effect = send_request("http://h:1/rpc:distro:sys/message/", document("{}"));
    assert_eq!(
        effect,
        Effect::Post {
            url: "http://h:1/rpc:distro:sys/message".to_string(),
            message: document("{}"),
        }
    );
}
