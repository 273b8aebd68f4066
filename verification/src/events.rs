use vstd::prelude::*;

use crate::errors::ILertError;
use crate::errors::ILertResult;
use crate::json::JsonValue;
use crate::json::fields_text;
use crate::json::joined;
use crate::json::json_text;
use crate::json::json_to_string;
use crate::json::items_text;
use crate::json::lemma_fields_text_push;
use crate::json::lemma_items_text_push;
use crate::json::lemma_joined_push;
use crate::json::quoted_text;
use crate::text::str_eq;

verus! {

/// The closed set of event kinds the event endpoint accepts.
#[derive(Debug, Clone, Copy, PartialEq, Eq, Structural)]
pub enum ILertEventType {
    ALERT,
    ACCEPT,
    RESOLVE,
    COMMENT,
}

/// The closed set of priorities an event may carry.
#[derive(Debug, Clone, Copy, PartialEq, Eq, Structural)]
pub enum ILertPriority {
    HIGH,
    LOW,
}

/// The canonical string form of an event kind.
pub open spec fn event_type_text(v: ILertEventType) -> Seq<char> {
    match v {
        ILertEventType::ALERT => "ALERT"@,
        ILertEventType::ACCEPT => "ACCEPT"@,
        ILertEventType::RESOLVE => "RESOLVE"@,
        ILertEventType::COMMENT => "COMMENT"@,
    }
}

/// Parsing of an event kind from its canonical string form: anything
/// outside the closed set has no parse.
pub open spec fn event_type_of_text(s: Seq<char>) -> Option<ILertEventType> {
    if s == "ALERT"@ {
        Some(ILertEventType::ALERT)
    } else if s == "ACCEPT"@ {
        Some(ILertEventType::ACCEPT)
    } else if s == "RESOLVE"@ {
        Some(ILertEventType::RESOLVE)
    } else if s == "COMMENT"@ {
        Some(ILertEventType::COMMENT)
    } else {
        None
    }
}

/// The canonical string form of a priority.
pub open spec fn priority_text(v: ILertPriority) -> Seq<char> {
    match v {
        ILertPriority::HIGH => "HIGH"@,
        ILertPriority::LOW => "LOW"@,
    }
}

/// Parsing of a priority from its canonical string form.
pub open spec fn priority_of_text(s: Seq<char>) -> Option<ILertPriority> {
    if s == "HIGH"@ {
        Some(ILertPriority::HIGH)
    } else if s == "LOW"@ {
        Some(ILertPriority::LOW)
    } else {
        None
    }
}

impl ILertEventType {
    pub fn as_str(&self) -> (r: &str)
        ensures
            r@ == event_type_text(*self),
    {
        match self {
            ILertEventType::ALERT => "ALERT",
            ILertEventType::ACCEPT => "ACCEPT",
            ILertEventType::RESOLVE => "RESOLVE",
            ILertEventType::COMMENT => "COMMENT",
        }
    }

    pub fn from_str(val: &str) -> (r: ILertResult<ILertEventType>)
        ensures
            r is Ok <==> event_type_of_text(val@) is Some,
            r matches Ok(t) ==> event_type_of_text(val@) == Some(t),
            r matches Err(e) ==> e@ == "Unsupported type value."@,
    {
        if str_eq(val, "ALERT") {
            Ok(ILertEventType::ALERT)
        } else if str_eq(val, "ACCEPT") {
            Ok(ILertEventType::ACCEPT)
        } else if str_eq(val, "RESOLVE") {
            Ok(ILertEventType::RESOLVE)
        } else if str_eq(val, "COMMENT") {
            Ok(ILertEventType::COMMENT)
        } else {
            Err(ILertError::new("Unsupported type value."))
        }
    }
}

impl ILertPriority {
    pub fn as_str(&self) -> (r: &str)
        ensures
            r@ == priority_text(*self),
    {
        match self {
            ILertPriority::HIGH => "HIGH",
            ILertPriority::LOW => "LOW",
        }
    }

    pub fn from_str(val: &str) -> (r: ILertResult<ILertPriority>)
        ensures
            r is Ok <==> priority_of_text(val@) is Some,
            r matches Ok(t) ==> priority_of_text(val@) == Some(t),
            r matches Err(e) ==> e@ == "Unsupported type value."@,
    {
        if str_eq(val, "HIGH") {
            Ok(ILertPriority::HIGH)
        } else if str_eq(val, "LOW") {
            Ok(ILertPriority::LOW)
        } else {
            Err(ILertError::new("Unsupported type value."))
        }
    }
}

/// Round trip: parsing the canonical form of any event kind yields that
/// same kind back.
pub proof fn lemma_event_type_round_trip(v: ILertEventType)
    ensures
        event_type_of_text(event_type_text(v)) == Some(v),
{
    reveal_strlit("ALERT");
    reveal_strlit("ACCEPT");
    reveal_strlit("RESOLVE");
    reveal_strlit("COMMENT");
    assert("ALERT"@.len() == 5);
    assert("ACCEPT"@.len() == 6);
    assert("RESOLVE"@.len() == 7);
    assert("COMMENT"@.len() == 7);
    assert("RESOLVE"@[0] == 'R');
    assert("COMMENT"@[0] == 'C');
    assert("COMMENT"@ != "RESOLVE"@);
}

/// Round trip: parsing the canonical form of any priority yields that same
/// priority back.
pub proof fn lemma_priority_round_trip(v: ILertPriority)
    ensures
        priority_of_text(priority_text(v)) == Some(v),
{
    reveal_strlit("HIGH");
    reveal_strlit("LOW");
    assert("HIGH"@.len() == 4);
    assert("LOW"@.len() == 3);
}

/// An image attached to an event, passed through into the body verbatim.
#[derive(Debug, Clone)]
pub struct EventImage {
    pub src: String,
    pub href: Option<String>,
    pub alt: Option<String>,
}

impl EventImage {
    pub fn new(src: &str) -> (r: EventImage)
        ensures
            r.src@ == src@,
            r.href is None,
            r.alt is None,
    {
        EventImage { src: src.to_owned(), href: None, alt: None }
    }
}

/// A link attached to an event, passed through into the body verbatim.
#[derive(Debug, Clone)]
pub struct EventLink {
    pub href: String,
    pub text: Option<String>,
}

impl EventLink {
    pub fn new(src: &str) -> (r: EventLink)
        ensures
            r.href@ == src@,
            r.text is None,
    {
        EventLink { href: src.to_owned(), text: None }
    }
}

/// A comment attached to an event, passed through into the body verbatim.
#[derive(Debug, Clone)]
pub struct EventComment {
    pub creator: String,
    pub content: String,
}

impl EventComment {
    pub fn new(creator: &str, content: &str) -> (r: EventComment)
        ensures
            r.creator@ == creator@,
            r.content@ == content@,
    {
        EventComment { creator: creator.to_owned(), content: content.to_owned() }
    }
}

/// The serialized form of a JSON null.
pub open spec fn null_text() -> Seq<char> {
    seq!['n', 'u', 'l', 'l']
}

/// An optional string serializes as a JSON string, or as null when absent:
/// the key stays present either way.
pub open spec fn opt_quoted_text(v: Option<String>) -> Seq<char> {
    match v {
        Some(s) => quoted_text(s@),
        None => null_text(),
    }
}

/// An optional priority serializes as its canonical string form, or null.
pub open spec fn opt_priority_quoted_text(v: Option<ILertPriority>) -> Seq<char> {
    match v {
        Some(p) => quoted_text(priority_text(p)),
        None => null_text(),
    }
}

/// An optional caller-supplied JSON document serializes verbatim, or null.
pub open spec fn opt_json_value_text(v: Option<JsonValue>) -> Seq<char> {
    match v {
        Some(j) => json_text(j),
        None => null_text(),
    }
}

/// The serialized form of one attached image.
pub open spec fn image_text(img: EventImage) -> Seq<char> {
    seq!['{'] + quoted_text("src"@) + seq![':'] + quoted_text(img.src@) + seq![','] + quoted_text(
        "href"@,
    ) + seq![':'] + opt_quoted_text(img.href) + seq![','] + quoted_text("alt"@) + seq![':']
        + opt_quoted_text(img.alt) + seq!['}']
}

/// The serialized form of one attached link.
pub open spec fn link_text(l: EventLink) -> Seq<char> {
    seq!['{'] + quoted_text("href"@) + seq![':'] + quoted_text(l.href@) + seq![','] + quoted_text(
        "text"@,
    ) + seq![':'] + opt_quoted_text(l.text) + seq!['}']
}

/// The serialized form of one attached comment.
pub open spec fn comment_text(c: EventComment) -> Seq<char> {
    seq!['{'] + quoted_text("creator"@) + seq![':'] + quoted_text(c.creator@) + seq![',']
        + quoted_text("content"@) + seq![':'] + quoted_text(c.content@) + seq!['}']
}

/// An optional image list serializes as a JSON array of image objects, or null.
pub open spec fn images_value_text(v: Option<Vec<EventImage>>) -> Seq<char> {
    match v {
        Some(items) => seq!['['] + joined(
            items@.map_values(|img: EventImage| image_text(img)),
            seq![','],
        ) + seq![']'],
        None => null_text(),
    }
}

/// An optional link list serializes as a JSON array of link objects, or null.
pub open spec fn links_value_text(v: Option<Vec<EventLink>>) -> Seq<char> {
    match v {
        Some(items) => seq!['['] + joined(
            items@.map_values(|l: EventLink| link_text(l)),
            seq![','],
        ) + seq![']'],
        None => null_text(),
    }
}

/// An optional comment list serializes as a JSON array of comment objects,
/// or null.
pub open spec fn comments_value_text(v: Option<Vec<EventComment>>) -> Seq<char> {
    match v {
        Some(items) => seq!['['] + joined(
            items@.map_values(|c: EventComment| comment_text(c)),
            seq![','],
        ) + seq![']'],
        None => null_text(),
    }
}

fn opt_string_json(v: &Option<String>) -> (r: JsonValue)
    ensures
        json_text(r) == opt_quoted_text(*v),
{
    match v {
        Some(s) => JsonValue::Str(s.clone()),
        None => JsonValue::Null,
    }
}

fn image_json(img: &EventImage) -> (r: JsonValue)
    ensures
        json_text(r) == image_text(*img),
{
    let mut fields: Vec<(String, JsonValue)> = Vec::new();
    fields.push((String::from_str("src"), JsonValue::Str(img.src.clone())));
    fields.push((String::from_str("href"), opt_string_json(&img.href)));
    fields.push((String::from_str("alt"), opt_string_json(&img.alt)));
    proof {
        let fs = fields@;
        let e = Seq::<(String, JsonValue)>::empty();
        lemma_fields_text_push(e, fs[0]);
        lemma_fields_text_push(e.push(fs[0]), fs[1]);
        lemma_fields_text_push(e.push(fs[0]).push(fs[1]), fs[2]);
    }
    let r = JsonValue::Object(fields);
    proof {
        assert(json_text(r) =~= image_text(*img));
    }
    r
}

fn link_json(l: &EventLink) -> (r: JsonValue)
    ensures
        json_text(r) == link_text(*l),
{
    let mut fields: Vec<(String, JsonValue)> = Vec::new();
    fields.push((String::from_str("href"), JsonValue::Str(l.href.clone())));
    fields.push((String::from_str("text"), opt_string_json(&l.text)));
    proof {
        let fs = fields@;
        let e = Seq::<(String, JsonValue)>::empty();
        lemma_fields_text_push(e, fs[0]);
        lemma_fields_text_push(e.push(fs[0]), fs[1]);
    }
    let r = JsonValue::Object(fields);
    proof {
        assert(json_text(r) =~= link_text(*l));
    }
    r
}

fn comment_json(c: &EventComment) -> (r: JsonValue)
    ensures
        json_text(r) == comment_text(*c),
{
    let mut fields: Vec<(String, JsonValue)> = Vec::new();
    fields.push((String::from_str("creator"), JsonValue::Str(c.creator.clone())));
    fields.push((String::from_str("content"), JsonValue::Str(c.content.clone())));
    proof {
        let fs = fields@;
        let e = Seq::<(String, JsonValue)>::empty();
        lemma_fields_text_push(e, fs[0]);
        lemma_fields_text_push(e.push(fs[0]), fs[1]);
    }
    let r = JsonValue::Object(fields);
    proof {
        assert(json_text(r) =~= comment_text(*c));
    }
    r
}

fn images_json(v: &Option<Vec<EventImage>>) -> (r: JsonValue)
    ensures
        json_text(r) == images_value_text(*v),
{
    match v {
        None => JsonValue::Null,
        Some(items) => {
            let mut out: Vec<JsonValue> = Vec::new();
            let n = items.len();
            let mut i: usize = 0;
            while i < n
                invariant
                    i <= n,
                    n == items@.len(),
                    out@.len() == i,
                    items_text(out@) == joined(
                        items@.take(i as int).map_values(|img: EventImage| image_text(img)),
                        seq![','],
                    ),
                decreases n - i,
            {
                let j = image_json(&items[i]);
                let ghost prev = out@;
                let ghost prev_mapped = items@.take(i as int).map_values(
                    |img: EventImage| image_text(img),
                );
                out.push(j);
                proof {
                    lemma_items_text_push(prev, j);
                    lemma_joined_push(prev_mapped, seq![','], image_text(items@[i as int]));
                    assert(items@.take(i + 1 as int).map_values(|img: EventImage| image_text(img))
                        =~= prev_mapped.push(image_text(items@[i as int])));
                }
                i += 1;
            }
            proof {
                assert(items@.take(n as int) =~= items@);
            }
            let r = JsonValue::Array(out);
            proof {
                assert(json_text(r) =~= images_value_text(*v));
            }
            r
        },
    }
}

fn links_json(v: &Option<Vec<EventLink>>) -> (r: JsonValue)
    ensures
        json_text(r) == links_value_text(*v),
{
    match v {
        None => JsonValue::Null,
        Some(items) => {
            let mut out: Vec<JsonValue> = Vec::new();
            let n = items.len();
            let mut i: usize = 0;
            while i < n
                invariant
                    i <= n,
                    n == items@.len(),
                    out@.len() == i,
                    items_text(out@) == joined(
                        items@.take(i as int).map_values(|l: EventLink| link_text(l)),
                        seq![','],
                    ),
                decreases n - i,
            {
                let j = link_json(&items[i]);
                let ghost prev = out@;
                let ghost prev_mapped = items@.take(i as int).map_values(
                    |l: EventLink| link_text(l),
                );
                out.push(j);
                proof {
                    lemma_items_text_push(prev, j);
                    lemma_joined_push(prev_mapped, seq![','], link_text(items@[i as int]));
                    assert(items@.take(i + 1 as int).map_values(|l: EventLink| link_text(l))
                        =~= prev_mapped.push(link_text(items@[i as int])));
                }
                i += 1;
            }
            proof {
                assert(items@.take(n as int) =~= items@);
            }
            let r = JsonValue::Array(out);
            proof {
                assert(json_text(r) =~= links_value_text(*v));
            }
            r
        },
    }
}

fn comments_json(v: &Option<Vec<EventComment>>) -> (r: JsonValue)
    ensures
        json_text(r) == comments_value_text(*v),
{
    match v {
        None => JsonValue::Null,
        Some(items) => {
            let mut out: Vec<JsonValue> = Vec::new();
            let n = items.len();
            let mut i: usize = 0;
            while i < n
                invariant
                    i <= n,
                    n == items@.len(),
                    out@.len() == i,
                    items_text(out@) == joined(
                        items@.take(i as int).map_values(|c: EventComment| comment_text(c)),
                        seq![','],
                    ),
                decreases n - i,
            {
                let j = comment_json(&items[i]);
                let ghost prev = out@;
                let ghost prev_mapped = items@.take(i as int).map_values(
                    |c: EventComment| comment_text(c),
                );
                out.push(j);
                proof {
                    lemma_items_text_push(prev, j);
                    lemma_joined_push(prev_mapped, seq![','], comment_text(items@[i as int]));
                    assert(items@.take(i + 1 as int).map_values(|c: EventComment| comment_text(c))
                        =~= prev_mapped.push(comment_text(items@[i as int])));
                }
                i += 1;
            }
            proof {
                assert(items@.take(n as int) =~= items@);
            }
            let r = JsonValue::Array(out);
            proof {
                assert(json_text(r) =~= comments_value_text(*v));
            }
            r
        },
    }
}

/// The serialized fields of the minimal event payload, in order.
pub open spec fn event_fields_text(
    api_key: Seq<char>,
    etype: ILertEventType,
    summary: Option<String>,
    alert_key: Option<String>,
) -> Seq<char> {
    kv_text("apiKey"@, quoted_text(api_key)) + seq![','] + kv_text(
        "eventType"@,
        quoted_text(event_type_text(etype)),
    ) + seq![','] + kv_text("summary"@, opt_quoted_text(summary)) + seq![','] + kv_text(
        "alertKey"@,
        opt_quoted_text(alert_key),
    )
}

/// The minimal event payload: api key, event kind, optional summary and
/// alert key; absent options serialize as null under a present key.
pub open spec fn event_body_text(
    api_key: Seq<char>,
    etype: ILertEventType,
    summary: Option<String>,
    alert_key: Option<String>,
) -> Seq<char> {
    seq!['{'] + event_fields_text(api_key, etype, summary, alert_key) + seq!['}']
}

/// Build the minimal event payload.
pub fn event_body(
    api_key: &str,
    event_type: &ILertEventType,
    summary: &Option<String>,
    alert_key: &Option<String>,
) -> (r: String)
    ensures
        r@ == event_body_text(api_key@, *event_type, *summary, *alert_key),
{
    let mut fields: Vec<(String, JsonValue)> = Vec::new();
    fields.push((String::from_str("apiKey"), JsonValue::Str(api_key.to_owned())));
    fields.push((String::from_str("eventType"), JsonValue::Str(event_type.as_str().to_owned())));
    fields.push((String::from_str("summary"), opt_string_json(summary)));
    fields.push((String::from_str("alertKey"), opt_string_json(alert_key)));
    proof {
        let fs = fields@;
        let e = Seq::<(String, JsonValue)>::empty();
        let s0 = e.push(fs[0]);
        let s1 = s0.push(fs[1]);
        let s2 = s1.push(fs[2]);
        let s3 = s2.push(fs[3]);
        lemma_fields_text_push(e, fs[0]);
        lemma_fields_text_push(s0, fs[1]);
        lemma_fields_text_push(s1, fs[2]);
        lemma_fields_text_push(s2, fs[3]);
        assert(fs == s3);
        assert(fields_text(fs) == event_fields_text(api_key@, *event_type, *summary, *alert_key));
    }
    let body = JsonValue::Object(fields);
    let r = json_to_string(&body);
    proof {
        assert(r@ == event_body_text(api_key@, *event_type, *summary, *alert_key));
    }
    r
}

/// One serialized `"key":value` pair.
pub open spec fn kv_text(key: Seq<char>, val: Seq<char>) -> Seq<char> {
    quoted_text(key) + seq![':'] + val
}

/// The serialized fields of the full event payload, in order.
pub open spec fn event_details_fields_text(
    api_key: Seq<char>,
    etype: ILertEventType,
    summary: Option<String>,
    alert_key: Option<String>,
    details: Option<String>,
    priority: Option<ILertPriority>,
    images: Option<Vec<EventImage>>,
    links: Option<Vec<EventLink>>,
    custom_details: Option<JsonValue>,
    routing_key: Option<String>,
) -> Seq<char> {
    kv_text("apiKey"@, quoted_text(api_key)) + seq![','] + kv_text(
        "eventType"@,
        quoted_text(event_type_text(etype)),
    ) + seq![','] + kv_text("summary"@, opt_quoted_text(summary)) + seq![','] + kv_text(
        "alertKey"@,
        opt_quoted_text(alert_key),
    ) + seq![','] + kv_text("details"@, opt_quoted_text(details)) + seq![','] + kv_text(
        "priority"@,
        opt_priority_quoted_text(priority),
    ) + seq![','] + kv_text("images"@, images_value_text(images)) + seq![','] + kv_text(
        "links"@,
        links_value_text(links),
    ) + seq![','] + kv_text("customDetails"@, opt_json_value_text(custom_details)) + seq![',']
        + kv_text("routingKey"@, opt_quoted_text(routing_key))
}

/// The full event payload: every optional field keeps its key and
/// serializes as null when unset.
pub open spec fn event_details_body_text(
    api_key: Seq<char>,
    etype: ILertEventType,
    summary: Option<String>,
    alert_key: Option<String>,
    details: Option<String>,
    priority: Option<ILertPriority>,
    images: Option<Vec<EventImage>>,
    links: Option<Vec<EventLink>>,
    custom_details: Option<JsonValue>,
    routing_key: Option<String>,
) -> Seq<char> {
    seq!['{'] + event_details_fields_text(
        api_key,
        etype,
        summary,
        alert_key,
        details,
        priority,
        images,
        links,
        custom_details,
        routing_key,
    ) + seq!['}']
}

/// Build the full event payload.
#[verifier::rlimit(100)]
pub fn event_details_body(
    api_key: &str,
    event_type: &ILertEventType,
    summary: &Option<String>,
    alert_key: &Option<String>,
    details: &Option<String>,
    priority: &Option<ILertPriority>,
    images: &Option<Vec<EventImage>>,
    links: &Option<Vec<EventLink>>,
    custom_details: Option<JsonValue>,
    routing_key: &Option<String>,
) -> (r: String)
    ensures
        r@ == event_details_body_text(
            api_key@,
            *event_type,
            *summary,
            *alert_key,
            *details,
            *priority,
            *images,
            *links,
            custom_details,
            *routing_key,
        ),
{
    let ghost cd = custom_details;
    let priority_value: JsonValue = match priority {
        Some(p) => JsonValue::Str(p.as_str().to_owned()),
        None => JsonValue::Null,
    };
    let custom_value: JsonValue = match custom_details {
        Some(j) => j,
        None => JsonValue::Null,
    };
    proof {
        assert(json_text(priority_value) == opt_priority_quoted_text(*priority));
        assert(json_text(custom_value) == opt_json_value_text(cd));
    }
    let mut fields: Vec<(String, JsonValue)> = Vec::new();
    fields.push((String::from_str("apiKey"), JsonValue::Str(api_key.to_owned())));
    fields.push((String::from_str("eventType"), JsonValue::Str(event_type.as_str().to_owned())));
    fields.push((String::from_str("summary"), opt_string_json(summary)));
    fields.push((String::from_str("alertKey"), opt_string_json(alert_key)));
    fields.push((String::from_str("details"), opt_string_json(details)));
    fields.push((String::from_str("priority"), priority_value));
    fields.push((String::from_str("images"), images_json(images)));
    fields.push((String::from_str("links"), links_json(links)));
    fields.push((String::from_str("customDetails"), custom_value));
    fields.push((String::from_str("routingKey"), opt_string_json(routing_key)));
    proof {
        let fs = fields@;
        let e = Seq::<(String, JsonValue)>::empty();
        let s0 = e.push(fs[0]);
        let s1 = s0.push(fs[1]);
        let s2 = s1.push(fs[2]);
        let s3 = s2.push(fs[3]);
        let s4 = s3.push(fs[4]);
        let s5 = s4.push(fs[5]);
        let s6 = s5.push(fs[6]);
        let s7 = s6.push(fs[7]);
        let s8 = s7.push(fs[8]);
        let s9 = s8.push(fs[9]);
        lemma_fields_text_push(e, fs[0]);
        lemma_fields_text_push(s0, fs[1]);
        lemma_fields_text_push(s1, fs[2]);
        lemma_fields_text_push(s2, fs[3]);
        lemma_fields_text_push(s3, fs[4]);
        lemma_fields_text_push(s4, fs[5]);
        lemma_fields_text_push(s5, fs[6]);
        lemma_fields_text_push(s6, fs[7]);
        lemma_fields_text_push(s7, fs[8]);
        lemma_fields_text_push(s8, fs[9]);
        assert(fs == s9);
        assert(fields_text(fs) == event_details_fields_text(
            api_key@,
            *event_type,
            *summary,
            *alert_key,
            *details,
            *priority,
            *images,
            *links,
            cd,
            *routing_key,
        ));
    }
    let body = JsonValue::Object(fields);
    let r = json_to_string(&body);
    proof {
        assert(r@ == event_details_body_text(
            api_key@,
            *event_type,
            *summary,
            *alert_key,
            *details,
            *priority,
            *images,
            *links,
            cd,
            *routing_key,
        ));
    }
    r
}

/// The serialized fields of the comment event payload, in order.
pub open spec fn event_comment_fields_text(
    api_key: Seq<char>,
    alert_key: Option<String>,
    comments: Option<Vec<EventComment>>,
) -> Seq<char> {
    kv_text("apiKey"@, quoted_text(api_key)) + seq![','] + kv_text(
        "eventType"@,
        quoted_text(event_type_text(ILertEventType::COMMENT)),
    ) + seq![','] + kv_text("alertKey"@, opt_quoted_text(alert_key)) + seq![','] + kv_text(
        "comments"@,
        comments_value_text(comments),
    )
}

/// The comment event payload: the event kind is forced to COMMENT.
pub open spec fn event_comment_body_text(
    api_key: Seq<char>,
    alert_key: Option<String>,
    comments: Option<Vec<EventComment>>,
) -> Seq<char> {
    seq!['{'] + event_comment_fields_text(api_key, alert_key, comments) + seq!['}']
}

/// Build the comment event payload.
pub fn event_comment_body(
    api_key: &str,
    alert_key: &Option<String>,
    comments: &Option<Vec<EventComment>>,
) -> (r: String)
    ensures
        r@ == event_comment_body_text(api_key@, *alert_key, *comments),
{
    let comment_type = ILertEventType::COMMENT;
    let mut fields: Vec<(String, JsonValue)> = Vec::new();
    fields.push((String::from_str("apiKey"), JsonValue::Str(api_key.to_owned())));
    fields.push((String::from_str("eventType"), JsonValue::Str(comment_type.as_str().to_owned())));
    fields.push((String::from_str("alertKey"), opt_string_json(alert_key)));
    fields.push((String::from_str("comments"), comments_json(comments)));
    proof {
        let fs = fields@;
        let e = Seq::<(String, JsonValue)>::empty();
        let s0 = e.push(fs[0]);
        let s1 = s0.push(fs[1]);
        let s2 = s1.push(fs[2]);
        let s3 = s2.push(fs[3]);
        lemma_fields_text_push(e, fs[0]);
        lemma_fields_text_push(s0, fs[1]);
        lemma_fields_text_push(s1, fs[2]);
        lemma_fields_text_push(s2, fs[3]);
        assert(fs == s3);
        assert(fields_text(fs) == event_comment_fields_text(api_key@, *alert_key, *comments));
    }
    let body = JsonValue::Object(fields);
    let r = json_to_string(&body);
    proof {
        assert(r@ == event_comment_body_text(api_key@, *alert_key, *comments));
    }
    r
}

} // verus!
