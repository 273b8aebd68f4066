use ilert::request::normalize_response;

fn json_headers() -> Vec<(String, String)> {
    vec![("content-type".to_string(), "application/json".to_string())]
}

#[test]
fn malformed_json_body_with_json_content_type_fails() {
    let r = normalize_response(
        "http://localhost:8080/api/users".to_string(),
        200,
        json_headers(),
        Some("{not json".to_string()),
    );
    assert!(r.is_err());
}

#[test]
fn malformed_body_with_plain_content_type_succeeds_without_parse() {
    let r = normalize_response(
        "http://localhost:8080/api/users".to_string(),
        200,
        vec![("content-type".to_string(), "text/plain".to_string())],
        Some("{not json".to_string()),
    )
    .unwrap();
    assert_eq!(r.status, 200);
    assert_eq!(r.body_raw.as_deref(), Some("{not json"));
    assert!(r.body_json.is_none());
}

#[test]
fn wellformed_json_body_is_parsed() {
    let r = normalize_response(
        "http://localhost:8080/api/users".to_string(),
        200,
        json_headers(),
        Some("{\"id\":7}".to_string()),
    )
    .unwrap();
    assert_eq!(r.url, "http://localhost:8080/api/users");
    assert_eq!(r.status, 200);
    assert_eq!(r.body_raw.as_deref(), Some("{\"id\":7}"));
    let parsed = r.body_json.unwrap();
    assert_eq!(parsed.get("id").unwrap().as_i64().unwrap(), 7);
}

#[test]
fn content_type_header_name_matches_case_insensitively() {
    let r = normalize_response(
        "u".to_string(),
        200,
        vec![("Content-Type".to_string(), "application/json".to_string())],
        Some("[1,2]".to_string()),
    )
    .unwrap();
    assert!(r.body_json.is_some());
}

#[test]
fn content_type_value_must_match_exactly() {
    let r = normalize_response(
        "u".to_string(),
        200,
        vec![("content-type".to_string(), "application/json; charset=utf-8".to_string())],
        Some("[1,2]".to_string()),
    )
    .unwrap();
    assert!(r.body_json.is_none());
    assert_eq!(r.body_raw.as_deref(), Some("[1,2]"));
}

#[test]
fn missing_body_or_header_yields_no_parse() {
    let r = normalize_response("u".to_string(), 404, json_headers(), None).unwrap();
    assert_eq!(r.status, 404);
    assert!(r.body_raw.is_none());
    assert!(r.body_json.is_none());

    let r = normalize_response("u".to_string(), 202, vec![], Some("{}".to_string())).unwrap();
    assert_eq!(r.status, 202);
    assert_eq!(r.body_raw.as_deref(), Some("{}"));
    assert!(r.body_json.is_none());
}

#[test]
fn first_matching_header_decides() {
    let r = normalize_response(
        "u".to_string(),
        200,
        vec![
            ("content-type".to_string(), "text/plain".to_string()),
            ("content-type".to_string(), "application/json".to_string()),
        ],
        Some("[1]".to_string()),
    )
    .unwrap();
    assert!(r.body_json.is_none());
}

#[test]
fn status_and_headers_pass_through_verbatim() {
    let headers = vec![
        ("x-trace".to_string(), "abc123".to_string()),
        ("content-type".to_string(), "application/json".to_string()),
    ];
    let r = normalize_response("u".to_string(), 502, headers.clone(), Some("0".to_string()))
        .unwrap();
    assert_eq!(r.status, 502);
    assert_eq!(r.headers, headers);
    let parsed = r.body_json.unwrap();
    assert_eq!(parsed.as_i64().unwrap(), 0);
}
