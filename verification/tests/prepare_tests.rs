use ilert::client::ILert;
use ilert::request::HttpVerb;

#[test]
fn execute_without_path_fails_for_every_verb() {
    let client = ILert::new_with_opts(Some("http://localhost:8080"), Some(10)).unwrap();

    let err = client.get().prepare().unwrap_err();
    assert_eq!(err.message(), "Failed to build url, path missing.");
    let err = client.create().prepare().unwrap_err();
    assert_eq!(err.message(), "Failed to build url, path missing.");
    let err = client.update().prepare().unwrap_err();
    assert_eq!(err.message(), "Failed to build url, path missing.");
    let err = client.delete().prepare().unwrap_err();
    assert_eq!(err.message(), "Failed to build url, path missing.");
}

#[test]
fn get_users_with_skip_and_limit() {
    let client = ILert::new_with_opts(Some("http://localhost:8080"), Some(10)).unwrap();
    let prepared = client.get().skip(0).limit(10).users().prepare().unwrap();
    assert_eq!(prepared.verb, HttpVerb::GET);
    assert_eq!(prepared.url, "http://localhost:8080/api/users");
    let start: Vec<&(String, String)> =
        prepared.query.iter().filter(|p| p.0 == "start-index").collect();
    assert_eq!(start.len(), 1);
    assert_eq!(start[0].1, "0");
    let max: Vec<&(String, String)> =
        prepared.query.iter().filter(|p| p.0 == "max-results").collect();
    assert_eq!(max.len(), 1);
    assert_eq!(max[0].1, "10");
    assert_eq!(prepared.query_string(), "start-index=0&max-results=10");
    assert!(prepared.body.is_none());
}

#[test]
fn filters_keep_order_and_repeats() {
    let client = ILert::new_with_opts(Some("http://localhost:8080"), None).unwrap();
    let prepared = client
        .get()
        .filter("state", "ACCEPTED")
        .filter("state", "PENDING")
        .filter("q", "a b&c")
        .alerts()
        .prepare()
        .unwrap();
    assert_eq!(prepared.url, "http://localhost:8080/api/alerts");
    assert_eq!(
        prepared.query,
        vec![
            ("state".to_string(), "ACCEPTED".to_string()),
            ("state".to_string(), "PENDING".to_string()),
            ("q".to_string(), "a b&c".to_string()),
        ]
    );
    assert_eq!(
        prepared.query_string(),
        "state=ACCEPTED&state=PENDING&q=a+b%26c"
    );
}

#[test]
fn token_auth_yields_bearer_header() {
    let mut client = ILert::new_with_opts(Some("http://localhost:8080"), None).unwrap();
    client.auth_via_token("abc").unwrap();
    let prepared = client.get().users().prepare().unwrap();
    let auth: Vec<&(String, String)> =
        prepared.headers.iter().filter(|p| p.0 == "Authorization").collect();
    assert_eq!(auth.len(), 1);
    assert_eq!(auth[0].1, "Bearer abc");
}

#[test]
fn basic_auth_yields_base64_header() {
    let mut client = ILert::new_with_opts(Some("http://localhost:8080"), None).unwrap();
    client.auth_via_user("user", "pw").unwrap();
    let prepared = client.get().users().prepare().unwrap();
    let auth: Vec<&(String, String)> =
        prepared.headers.iter().filter(|p| p.0 == "Authorization").collect();
    assert_eq!(auth.len(), 1);
    assert_eq!(auth[0].1, "Basic dXNlcjpwdw==");
}

#[test]
fn both_credential_forms_append_both_headers_in_order() {
    let mut client = ILert::new_with_opts(Some("http://localhost:8080"), None).unwrap();
    client.auth_via_token("abc").unwrap();
    client.auth_via_user("user", "pw").unwrap();
    let prepared = client.get().users().prepare().unwrap();
    let auth: Vec<&(String, String)> =
        prepared.headers.iter().filter(|p| p.0 == "Authorization").collect();
    assert_eq!(auth.len(), 2);
    assert_eq!(auth[0].1, "Bearer abc");
    assert_eq!(auth[1].1, "Basic dXNlcjpwdw==");
}

#[test]
fn accept_alert_resolves_put_path_without_body() {
    let client = ILert::new_with_opts(Some("http://localhost:8080"), None).unwrap();
    let prepared = client.update().accept_alert(42).prepare().unwrap();
    assert_eq!(prepared.verb, HttpVerb::PUT);
    assert_eq!(prepared.url, "http://localhost:8080/api/alerts/42/accept");
    assert!(prepared.body.is_none());
    assert!(prepared.query.is_empty());
}

#[test]
fn resolve_alert_resolves_put_path_without_body() {
    let client = ILert::new_with_opts(Some("http://localhost:8080"), None).unwrap();
    let prepared = client.update().resolve_alert(7).prepare().unwrap();
    assert_eq!(prepared.verb, HttpVerb::PUT);
    assert_eq!(prepared.url, "http://localhost:8080/api/alerts/7/resolve");
    assert!(prepared.body.is_none());
}

#[test]
fn get_resource_paths_resolve() {
    let client = ILert::new_with_opts(Some("http://localhost:8080"), None).unwrap();
    let p = client.get().user(3).prepare().unwrap();
    assert_eq!(p.url, "http://localhost:8080/api/users/3");
    let p = client.get().schedules().prepare().unwrap();
    assert_eq!(p.url, "http://localhost:8080/api/schedules");
    let p = client.get().schedule(5).prepare().unwrap();
    assert_eq!(p.url, "http://localhost:8080/api/schedules/5");
    let p = client.get().schedule_shifts(99).prepare().unwrap();
    assert_eq!(p.url, "http://localhost:8080/api/schedules/99/shifts");
    let p = client.get().alert(-1).prepare().unwrap();
    assert_eq!(p.url, "http://localhost:8080/api/alerts/-1");
    let p = client.get().incidents().prepare().unwrap();
    assert_eq!(p.url, "http://localhost:8080/api/incidents");
    let p = client.get().incident(8).prepare().unwrap();
    assert_eq!(p.url, "http://localhost:8080/api/incidents/8");
    let p = client.get().services().prepare().unwrap();
    assert_eq!(p.url, "http://localhost:8080/api/services");
    let p = client.get().service(11).prepare().unwrap();
    assert_eq!(p.url, "http://localhost:8080/api/services/11");
    let p = client
        .get()
        .heartbeat("43c7afdc-0b3e-4344-b48a-5379a963241f")
        .prepare()
        .unwrap();
    assert_eq!(
        p.url,
        "http://localhost:8080/api/heartbeats/43c7afdc-0b3e-4344-b48a-5379a963241f"
    );
}

#[test]
fn delete_uses_delete_verb() {
    let client = ILert::new_with_opts(Some("http://localhost:8080"), None).unwrap();
    let p = client.delete().incident(4).prepare().unwrap();
    assert_eq!(p.verb, HttpVerb::DELETE);
    assert_eq!(p.url, "http://localhost:8080/api/incidents/4");
    assert!(p.body.is_none());
    let p = client.delete().service(6).prepare().unwrap();
    assert_eq!(p.verb, HttpVerb::DELETE);
    assert_eq!(p.url, "http://localhost:8080/api/services/6");
}
