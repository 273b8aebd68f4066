use ilert::client::ILert;
use ilert::events::EventComment;
use ilert::events::EventImage;
use ilert::events::EventLink;
use ilert::events::ILertEventType;
use ilert::events::ILertPriority;
use ilert::events::event_body;
use ilert::events::event_comment_body;
use ilert::events::event_details_body;
use ilert::json::JsonValue;
use ilert::request::HttpVerb;

#[test]
fn minimal_event_body_has_all_keys() {
    let body = event_body(
        "key1",
        &ILertEventType::RESOLVE,
        &None,
        &Some("bratwurst".to_string()),
    );
    assert_eq!(
        body,
        "{\"apiKey\":\"key1\",\"eventType\":\"RESOLVE\",\"summary\":null,\"alertKey\":\"bratwurst\"}"
    );
}

#[test]
fn details_body_with_everything_unset_keeps_null_keys() {
    let body = event_details_body(
        "key1",
        &ILertEventType::ALERT,
        &None,
        &None,
        &None,
        &None,
        &None,
        &None,
        None,
        &None,
    );
    assert_eq!(
        body,
        "{\"apiKey\":\"key1\",\"eventType\":\"ALERT\",\"summary\":null,\"alertKey\":null,\
         \"details\":null,\"priority\":null,\"images\":null,\"links\":null,\
         \"customDetails\":null,\"routingKey\":null}"
    );
}

#[test]
fn details_body_serializes_every_field() {
    let images = vec![EventImage::new("https://example.test/a.webp")];
    let links = vec![EventLink::new("https://example.test/doc")];
    let custom = JsonValue::Object(vec![("hehe".to_string(), JsonValue::Str("test".to_string()))]);
    let body = event_details_body(
        "key1",
        &ILertEventType::ALERT,
        &Some("Host down".to_string()),
        &Some("bratwurst".to_string()),
        &Some("detail message".to_string()),
        &Some(ILertPriority::LOW),
        &Some(images),
        &Some(links),
        Some(custom),
        &Some("route-7".to_string()),
    );
    assert_eq!(
        body,
        "{\"apiKey\":\"key1\",\"eventType\":\"ALERT\",\"summary\":\"Host down\",\
         \"alertKey\":\"bratwurst\",\"details\":\"detail message\",\"priority\":\"LOW\",\
         \"images\":[{\"src\":\"https://example.test/a.webp\",\"href\":null,\"alt\":null}],\
         \"links\":[{\"href\":\"https://example.test/doc\",\"text\":null}],\
         \"customDetails\":{\"hehe\":\"test\"},\"routingKey\":\"route-7\"}"
    );
}

#[test]
fn comment_body_forces_comment_event_type() {
    let comments = vec![EventComment::new("Peter Parker", "a comment")];
    let body = event_comment_body("key1", &Some("bratwurst".to_string()), &Some(comments));
    assert_eq!(
        body,
        "{\"apiKey\":\"key1\",\"eventType\":\"COMMENT\",\"alertKey\":\"bratwurst\",\
         \"comments\":[{\"creator\":\"Peter Parker\",\"content\":\"a comment\"}]}"
    );
}

#[test]
fn comment_body_with_no_comments_is_null() {
    let body = event_comment_body("key1", &None, &None);
    assert_eq!(
        body,
        "{\"apiKey\":\"key1\",\"eventType\":\"COMMENT\",\"alertKey\":null,\"comments\":null}"
    );
}

#[test]
fn event_builder_sets_events_path_and_body() {
    let client = ILert::new_with_opts(Some("http://localhost:8080"), Some(10)).unwrap();
    let prepared = client
        .create()
        .event("key1", ILertEventType::ALERT, Some("summary".to_string()), None)
        .prepare()
        .unwrap();
    assert_eq!(prepared.verb, HttpVerb::POST);
    assert_eq!(prepared.url, "http://localhost:8080/api/events");
    assert_eq!(
        prepared.body.as_deref(),
        Some(
            "{\"apiKey\":\"key1\",\"eventType\":\"ALERT\",\"summary\":\"summary\",\"alertKey\":null}"
        )
    );
}

#[test]
fn event_bodies_parse_as_json() {
    let images = vec![EventImage::new("https://example.test/a.webp")];
    let body = event_details_body(
        "key1",
        &ILertEventType::ACCEPT,
        &Some("with \"quotes\" and\nnewline".to_string()),
        &None,
        &None,
        &Some(ILertPriority::HIGH),
        &Some(images),
        &Some(vec![]),
        None,
        &None,
    );
    let parsed: serde_json::Value = serde_json::from_str(&body).unwrap();
    assert_eq!(parsed.get("apiKey").unwrap().as_str().unwrap(), "key1");
    assert_eq!(parsed.get("eventType").unwrap().as_str().unwrap(), "ACCEPT");
    assert_eq!(
        parsed.get("summary").unwrap().as_str().unwrap(),
        "with \"quotes\" and\nnewline"
    );
    assert!(parsed.get("alertKey").unwrap().is_null());
    assert_eq!(parsed.get("priority").unwrap().as_str().unwrap(), "HIGH");
    assert_eq!(parsed.get("images").unwrap().as_array().unwrap().len(), 1);
    assert_eq!(parsed.get("links").unwrap().as_array().unwrap().len(), 0);
}

#[test]
fn raw_documents_pass_through() {
    let client = ILert::new_with_opts(Some("http://localhost:8080"), None).unwrap();
    let entity = JsonValue::Object(vec![
        ("summary".to_string(), JsonValue::Str("incident".to_string())),
        ("status".to_string(), JsonValue::Str("INVESTIGATING".to_string())),
    ]);
    let prepared = client.create().incident_raw(&entity).prepare().unwrap();
    assert_eq!(prepared.verb, HttpVerb::POST);
    assert_eq!(prepared.url, "http://localhost:8080/api/incidents");
    assert_eq!(
        prepared.body.as_deref(),
        Some("{\"summary\":\"incident\",\"status\":\"INVESTIGATING\"}")
    );

    let prepared = client.update().incident_raw(12, &entity).prepare().unwrap();
    assert_eq!(prepared.verb, HttpVerb::PUT);
    assert_eq!(prepared.url, "http://localhost:8080/api/incidents/12");

    let prepared = client.create().service_raw(&entity).prepare().unwrap();
    assert_eq!(prepared.url, "http://localhost:8080/api/services");

    let prepared = client.update().service_raw(9, &entity).prepare().unwrap();
    assert_eq!(prepared.url, "http://localhost:8080/api/services/9");

    let prepared = client.update().alert_raw(3, &entity).prepare().unwrap();
    assert_eq!(prepared.verb, HttpVerb::PUT);
    assert_eq!(prepared.url, "http://localhost:8080/api/alerts/3");
    assert!(prepared.body.is_some());
}

#[test]
fn event_value_object_constructors() {
    let img = EventImage::new("https://example.test/a.webp");
    assert_eq!(img.src, "https://example.test/a.webp");
    assert!(img.href.is_none());
    assert!(img.alt.is_none());
    let link = EventLink::new("https://example.test/doc");
    assert_eq!(link.href, "https://example.test/doc");
    assert!(link.text.is_none());
    let comment = EventComment::new("Peter Parker", "salut");
    assert_eq!(comment.creator, "Peter Parker");
    assert_eq!(comment.content, "salut");
}
