use dotview::response::parse_response;

#[test]
fn decodes_a_task_body() {
    let body = br#"{"data":{"dot_info":"digraph{A->B}"}}"#;
    let got = parse_response(body);
    assert_eq!(got, Ok(Some(b"digraph{A->B}".to_vec())));
}

#[test]
fn decodes_a_no_task_body() {
    let body = br#"{"data":null}"#;
    let got = parse_response(body);
    assert_eq!(got, Ok(None));
}

#[test]
fn tolerates_whitespace_between_tokens() {
    let body = b" \t{\r\n \"data\" : { \"dot_info\" :\t\"x\" } }\n";
    assert_eq!(parse_response(body), Ok(Some(b"x".to_vec())));
    let body = b"  { \"data\" :\r\n null }  ";
    assert_eq!(parse_response(body), Ok(None));
}

#[test]
fn unescapes_the_description() {
    let body = br#"{"data":{"dot_info":"a\"b\\c\nd\te\/f"}}"#;
    assert_eq!(parse_response(body), Ok(Some(b"a\"b\\c\nd\te/f".to_vec())));
}

#[test]
fn decodes_an_empty_description() {
    let body = br#"{"data":{"dot_info":""}}"#;
    assert_eq!(parse_response(body), Ok(Some(Vec::new())));
}

#[test]
fn passes_non_ascii_bytes_through() {
    let mut body = Vec::new();
    body.extend_from_slice(br#"{"data":{"dot_info":""#);
    body.extend_from_slice("digraph{α}".as_bytes());
    body.extend_from_slice(br#""}}"#);
    assert_eq!(parse_response(&body), Ok(Some("digraph{α}".as_bytes().to_vec())));
}

#[test]
fn rejects_bodies_of_another_shape() {
    assert!(parse_response(b"").is_err());
    assert!(parse_response(b"null").is_err());
    assert!(parse_response(b"[]").is_err());
    assert!(parse_response(br#"{"data":5}"#).is_err());
    assert!(parse_response(br#"{"data":"x"}"#).is_err());
    assert!(parse_response(br#"{"data":{}}"#).is_err());
    assert!(parse_response(br#"{"other":null}"#).is_err());
    assert!(parse_response(br#"{"data":{"dot":"x"}}"#).is_err());
}

#[test]
fn rejects_truncated_bodies() {
    assert!(parse_response(br#"{"data":{"dot_info":"digraph"#).is_err());
    assert!(parse_response(br#"{"data":{"dot_info":"x"}"#).is_err());
    assert!(parse_response(br#"{"data":null"#).is_err());
    assert!(parse_response(br#"{"data":{"dot_info":"x\"#).is_err());
}

#[test]
fn rejects_trailing_content() {
    assert!(parse_response(br#"{"data":null}x"#).is_err());
    assert!(parse_response(br#"{"data":null}{"data":null}"#).is_err());
}

#[test]
fn rejects_unsupported_escapes_and_control_bytes() {
    assert!(parse_response(br#"{"data":{"dot_info":"\u0041"}}"#).is_err());
    assert!(parse_response(br#"{"data":{"dot_info":"\x"}}"#).is_err());
    assert!(parse_response(b"{\"data\":{\"dot_info\":\"a\x01b\"}}").is_err());
}
