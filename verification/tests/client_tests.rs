use ilert::client::ILert;

#[test]
fn new_uses_defaults() {
    let client = ILert::new().unwrap();
    assert_eq!(client.host, "https://api.ilert.com");
    assert_eq!(client.api_ep, "/api");
    assert!(client.api_token.is_none());
    assert!(client.auth_user.is_none());
    assert!(client.auth_psw.is_none());
    assert_eq!(client.timeout_sec, 25);
}

#[test]
fn new_with_opts_overrides_host_and_timeout() {
    let client = ILert::new_with_opts(Some("http://localhost:8080"), Some(10)).unwrap();
    assert_eq!(client.host, "http://localhost:8080");
    assert_eq!(client.api_ep, "/api");
    assert_eq!(client.timeout_sec, 10);
}

#[test]
fn new_with_opts_defaults_when_unset() {
    let client = ILert::new_with_opts(None, None).unwrap();
    assert_eq!(client.host, "https://api.ilert.com");
    assert_eq!(client.timeout_sec, 25);
}

#[test]
fn auth_setters_store_credentials() {
    let mut client = ILert::new().unwrap();
    client.auth_via_token("abc").unwrap();
    assert_eq!(client.api_token.as_deref(), Some("abc"));
    client.auth_via_user("chris@chris", "chris").unwrap();
    assert_eq!(client.auth_user.as_deref(), Some("chris@chris"));
    assert_eq!(client.auth_psw.as_deref(), Some("chris"));
    assert_eq!(client.api_token.as_deref(), Some("abc"));
}

#[test]
fn build_url_concatenates_host_prefix_path() {
    let client = ILert::new_with_opts(Some("http://localhost:8080"), None).unwrap();
    assert_eq!(client.build_url("/users"), "http://localhost:8080/api/users");
    let client = ILert::new().unwrap();
    assert_eq!(client.build_url("/alerts/7"), "https://api.ilert.com/api/alerts/7");
}

#[test]
fn default_headers_are_fixed() {
    let headers = ILert::default_headers();
    assert_eq!(headers.len(), 3);
    assert_eq!(headers[0], ("User-Agent".to_string(), "ilert-rust/3.1.0".to_string()));
    assert_eq!(headers[1], ("Accept".to_string(), "application/json".to_string()));
    assert_eq!(headers[2], ("Content-Type".to_string(), "application/json".to_string()));
}
