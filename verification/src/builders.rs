use vstd::prelude::*;

use crate::client::ILert;
use crate::errors::ILertError;
use crate::errors::ILertResult;
use crate::events::EventComment;
use crate::events::EventImage;
use crate::events::EventLink;
use crate::events::ILertEventType;
use crate::events::ILertPriority;
use crate::events::event_body;
use crate::events::event_body_text;
use crate::events::event_comment_body;
use crate::events::event_comment_body_text;
use crate::events::event_details_body;
use crate::events::event_details_body_text;
use crate::json::JsonValue;
use crate::json::json_text;
use crate::json::json_to_string;
use crate::request::BaseRequestBuilder;
use crate::request::HttpVerb;
use crate::request::PreparedRequest;
use crate::request::auth_header_views;
use crate::request::extend_string_pairs;
use crate::request::filter_views;
use crate::request::header_views;
use crate::request::prepare_generic_request_builder;
use crate::request::unconfigured;
use crate::text::i64_to_string;
use crate::text::int_text;

verus! {

/// The one resource method called on a builder set its path and changed
/// nothing else.
pub open spec fn path_set_to<'a>(
    after: BaseRequestBuilder<'a>,
    before: BaseRequestBuilder<'a>,
    path: Seq<char>,
) -> bool {
    &&& after.options.path matches Some(p) && p@ == path
    &&& after.options.url == before.options.url
    &&& after.options.headers == before.options.headers
    &&& after.options.body == before.options.body
    &&& after.client == before.client
    &&& after.start_index == before.start_index
    &&& after.max_results == before.max_results
    &&& after.filters == before.filters
}

/// The one resource method called on a builder set its path and body and
/// changed nothing else.
pub open spec fn path_and_body_set_to<'a>(
    after: BaseRequestBuilder<'a>,
    before: BaseRequestBuilder<'a>,
    path: Seq<char>,
    body: Seq<char>,
) -> bool {
    &&& after.options.path matches Some(p) && p@ == path
    &&& after.options.body matches Some(b) && b@ == body
    &&& after.options.url == before.options.url
    &&& after.options.headers == before.options.headers
    &&& after.client == before.client
    &&& after.start_index == before.start_index
    &&& after.max_results == before.max_results
    &&& after.filters == before.filters
}

/// The GET query parameters, in order: the skip index, then the result
/// limit, then every filter pair as it was added.
pub open spec fn get_query_views(b: BaseRequestBuilder<'_>) -> Seq<(Seq<char>, Seq<char>)> {
    (match b.start_index {
        Some(i) => seq![("start-index"@, int_text(i as int))],
        None => Seq::empty(),
    }) + (match b.max_results {
        Some(m) => seq![("max-results"@, int_text(m as int))],
        None => Seq::empty(),
    }) + filter_views(b.filters)
}

/// The read builder: optional skip/limit/filter query extras, and one
/// resource method to choose the path.
#[derive(Debug)]
pub struct GetRequestBuilder<'a> {
    pub builder: BaseRequestBuilder<'a>,
}

impl<'a> GetRequestBuilder<'a> {
    pub fn new(client: &'a ILert) -> (r: GetRequestBuilder<'a>)
        ensures
            r.builder.client == client,
            unconfigured(r.builder),
    {
        GetRequestBuilder { builder: BaseRequestBuilder::new(client) }
    }

    /// The `start-index` query parameter.
    pub fn skip(self, start_index: i64) -> (r: Self)
        ensures
            r.builder.start_index == Some(start_index),
            r.builder.options == self.builder.options,
            r.builder.client == self.builder.client,
            r.builder.max_results == self.builder.max_results,
            r.builder.filters == self.builder.filters,
    {
        let mut s = self;
        s.builder.start_index = Some(start_index);
        s
    }

    /// The `max-results` query parameter.
    pub fn limit(self, max_results: i32) -> (r: Self)
        ensures
            r.builder.max_results == Some(max_results),
            r.builder.options == self.builder.options,
            r.builder.client == self.builder.client,
            r.builder.start_index == self.builder.start_index,
            r.builder.filters == self.builder.filters,
    {
        let mut s = self;
        s.builder.max_results = Some(max_results);
        s
    }

    /// One more query filter pair; keys may repeat and order is kept.
    pub fn filter(self, key: &str, val: &str) -> (r: Self)
        ensures
            filter_views(r.builder.filters) == filter_views(self.builder.filters).push(
                (key@, val@),
            ),
            r.builder.options == self.builder.options,
            r.builder.client == self.builder.client,
            r.builder.start_index == self.builder.start_index,
            r.builder.max_results == self.builder.max_results,
    {
        let mut s = self;
        s.builder.add_filter(key, val);
        s
    }

    pub fn heartbeat(self, key: &str) -> (r: Self)
        ensures
            path_set_to(r.builder, self.builder, "/heartbeats/"@ + key@),
    {
        let mut s = self;
        let mut path = "/heartbeats/".to_owned();
        path.append(key);
        s.builder.set_path(path.as_str());
        s
    }

    pub fn users(self) -> (r: Self)
        ensures
            path_set_to(r.builder, self.builder, "/users"@),
    {
        let mut s = self;
        s.builder.set_path("/users");
        s
    }

    pub fn user(self, id: i64) -> (r: Self)
        ensures
            path_set_to(r.builder, self.builder, "/users/"@ + int_text(id as int)),
    {
        let mut s = self;
        let mut path = "/users/".to_owned();
        let num = i64_to_string(id);
        path.append(num.as_str());
        s.builder.set_path(path.as_str());
        s
    }

    pub fn schedules(self) -> (r: Self)
        ensures
            path_set_to(r.builder, self.builder, "/schedules"@),
    {
        let mut s = self;
        s.builder.set_path("/schedules");
        s
    }

    pub fn schedule(self, id: i64) -> (r: Self)
        ensures
            path_set_to(r.builder, self.builder, "/schedules/"@ + int_text(id as int)),
    {
        let mut s = self;
        let mut path = "/schedules/".to_owned();
        let num = i64_to_string(id);
        path.append(num.as_str());
        s.builder.set_path(path.as_str());
        s
    }

    pub fn schedule_shifts(self, id: i64) -> (r: Self)
        ensures
            path_set_to(
                r.builder,
                self.builder,
                "/schedules/"@ + int_text(id as int) + "/shifts"@,
            ),
    {
        let mut s = self;
        let mut path = "/schedules/".to_owned();
        let num = i64_to_string(id);
        path.append(num.as_str());
        path.append("/shifts");
        s.builder.set_path(path.as_str());
        s
    }

    pub fn alerts(self) -> (r: Self)
        ensures
            path_set_to(r.builder, self.builder, "/alerts"@),
    {
        let mut s = self;
        s.builder.set_path("/alerts");
        s
    }

    pub fn alert(self, id: i64) -> (r: Self)
        ensures
            path_set_to(r.builder, self.builder, "/alerts/"@ + int_text(id as int)),
    {
        let mut s = self;
        let mut path = "/alerts/".to_owned();
        let num = i64_to_string(id);
        path.append(num.as_str());
        s.builder.set_path(path.as_str());
        s
    }

    pub fn incidents(self) -> (r: Self)
        ensures
            path_set_to(r.builder, self.builder, "/incidents"@),
    {
        let mut s = self;
        s.builder.set_path("/incidents");
        s
    }

    pub fn incident(self, id: i64) -> (r: Self)
        ensures
            path_set_to(r.builder, self.builder, "/incidents/"@ + int_text(id as int)),
    {
        let mut s = self;
        let mut path = "/incidents/".to_owned();
        let num = i64_to_string(id);
        path.append(num.as_str());
        s.builder.set_path(path.as_str());
        s
    }

    pub fn services(self) -> (r: Self)
        ensures
            path_set_to(r.builder, self.builder, "/services"@),
    {
        let mut s = self;
        s.builder.set_path("/services");
        s
    }

    pub fn service(self, id: i64) -> (r: Self)
        ensures
            path_set_to(r.builder, self.builder, "/services/"@ + int_text(id as int)),
    {
        let mut s = self;
        let mut path = "/services/".to_owned();
        let num = i64_to_string(id);
        path.append(num.as_str());
        s.builder.set_path(path.as_str());
        s
    }

    /// Resolve the URL, inject the authorization headers, and assemble the
    /// query parameters; no network activity happens here.
    pub fn prepare(&self) -> (r: ILertResult<PreparedRequest>)
        ensures
            r is Err <==> self.builder.options.path is None,
            r matches Err(e) ==> e@ == "Failed to build url, path missing."@,
            r matches Ok(p) ==> {
                &&& p.verb == HttpVerb::GET
                &&& p.url@ == self.builder.client.host@ + self.builder.client.api_ep@
                    + self.builder.options.path->0@
                &&& header_views(p.headers@) == header_views(self.builder.options.headers@)
                    + auth_header_views(*self.builder.client)
                &&& header_views(p.query@) == get_query_views(self.builder)
                &&& p.body == self.builder.options.body
            },
    {
        let opts = match prepare_generic_request_builder(&self.builder) {
            Ok(o) => o,
            Err(e) => {
                return Err(e);
            },
        };
        let url = match opts.url {
            Some(u) => u,
            None => {
                return Err(ILertError::new("Failed to build url."));
            },
        };
        let mut query: Vec<(String, String)> = Vec::new();
        match self.builder.start_index {
            Some(i) => {
                query.push(("start-index".to_owned(), i64_to_string(i)));
            },
            None => {},
        }
        proof {
            let si_part: Seq<(Seq<char>, Seq<char>)> = match self.builder.start_index {
                Some(i) => seq![("start-index"@, int_text(i as int))],
                None => Seq::empty(),
            };
            assert(header_views(query@) =~= si_part);
        }
        let ghost with_si = query@;
        match self.builder.max_results {
            Some(m) => {
                query.push(("max-results".to_owned(), i64_to_string(m as i64)));
            },
            None => {},
        }
        proof {
            let mr_part: Seq<(Seq<char>, Seq<char>)> = match self.builder.max_results {
                Some(m) => seq![("max-results"@, int_text(m as int))],
                None => Seq::empty(),
            };
            assert(header_views(query@) =~= header_views(with_si) + mr_part);
        }
        let ghost with_mr = query@;
        match &self.builder.filters {
            Some(fv) => {
                extend_string_pairs(&mut query, fv);
            },
            None => {},
        }
        proof {
            assert(header_views(query@) =~= header_views(with_mr) + filter_views(
                self.builder.filters,
            ));
            assert(header_views(query@) =~= get_query_views(self.builder));
        }
        Ok(
            PreparedRequest {
                verb: HttpVerb::GET,
                url,
                headers: opts.headers,
                query,
                body: opts.body,
            },
        )
    }
}

pub(crate) fn prepare_with_verb(builder: &BaseRequestBuilder, verb: HttpVerb) -> (r: ILertResult<
    PreparedRequest,
>)
    ensures
        r is Err <==> builder.options.path is None,
        r matches Err(e) ==> e@ == "Failed to build url, path missing."@,
        r matches Ok(p) ==> {
            &&& p.verb == verb
            &&& p.url@ == builder.client.host@ + builder.client.api_ep@ + builder.options.path->0@
            &&& header_views(p.headers@) == header_views(builder.options.headers@)
                + auth_header_views(*builder.client)
            &&& p.query@ == Seq::<(String, String)>::empty()
            &&& p.body == builder.options.body
        },
{
    let opts = match prepare_generic_request_builder(builder) {
        Ok(o) => o,
        Err(e) => {
            return Err(e);
        },
    };
    let url = match opts.url {
        Some(u) => u,
        None => {
            return Err(ILertError::new("Failed to build url."));
        },
    };
    Ok(PreparedRequest { verb, url, headers: opts.headers, query: Vec::new(), body: opts.body })
}

/// The create builder: one resource method chooses path and body, and the
/// request executes with the POST verb.
#[derive(Debug)]
pub struct PostRequestBuilder<'a> {
    pub builder: BaseRequestBuilder<'a>,
}

impl<'a> PostRequestBuilder<'a> {
    pub fn new(client: &'a ILert, _body: &str) -> (r: PostRequestBuilder<'a>)
        ensures
            r.builder.client == client,
            unconfigured(r.builder),
    {
        PostRequestBuilder { builder: BaseRequestBuilder::new(client) }
    }

    /// The minimal event payload against `/events`.
    pub fn event(
        self,
        api_key: &str,
        event_type: ILertEventType,
        summary: Option<String>,
        alert_key: Option<String>,
    ) -> (r: Self)
        ensures
            path_and_body_set_to(
                r.builder,
                self.builder,
                "/events"@,
                event_body_text(api_key@, event_type, summary, alert_key),
            ),
    {
        let mut s = self;
        let body = event_body(api_key, &event_type, &summary, &alert_key);
        s.builder.set_path("/events");
        s.builder.set_body(body.as_str());
        s
    }

    /// The full event payload against `/events`; unset optional fields
    /// keep their key and serialize as null.
    pub fn event_with_details(
        self,
        api_key: &str,
        event_type: ILertEventType,
        summary: Option<String>,
        alert_key: Option<String>,
        details: Option<String>,
        priority: Option<ILertPriority>,
        images: Option<Vec<EventImage>>,
        links: Option<Vec<EventLink>>,
        custom_details: Option<JsonValue>,
        routing_key: Option<String>,
    ) -> (r: Self)
        ensures
            path_and_body_set_to(
                r.builder,
                self.builder,
                "/events"@,
                event_details_body_text(
                    api_key@,
                    event_type,
                    summary,
                    alert_key,
                    details,
                    priority,
                    images,
                    links,
                    custom_details,
                    routing_key,
                ),
            ),
    {
        let mut s = self;
        let body = event_details_body(
            api_key,
            &event_type,
            &summary,
            &alert_key,
            &details,
            &priority,
            &images,
            &links,
            custom_details,
            &routing_key,
        );
        s.builder.set_path("/events");
        s.builder.set_body(body.as_str());
        s
    }

    /// The comment event payload against `/events`; the event kind is
    /// forced to COMMENT.
    pub fn event_with_comment(
        self,
        api_key: &str,
        alert_key: Option<String>,
        comments: Option<Vec<EventComment>>,
    ) -> (r: Self)
        ensures
            path_and_body_set_to(
                r.builder,
                self.builder,
                "/events"@,
                event_comment_body_text(api_key@, alert_key, comments),
            ),
    {
        let mut s = self;
        let body = event_comment_body(api_key, &alert_key, &comments);
        s.builder.set_path("/events");
        s.builder.set_body(body.as_str());
        s
    }

    /// A caller-supplied incident document against `/incidents`.
    pub fn incident_raw(self, entity: &JsonValue) -> (r: Self)
        ensures
            path_and_body_set_to(r.builder, self.builder, "/incidents"@, json_text(*entity)),
    {
        let mut s = self;
        let body = json_to_string(entity);
        s.builder.set_path("/incidents");
        s.builder.set_body(body.as_str());
        s
    }

    /// A caller-supplied service document against `/services`.
    pub fn service_raw(self, entity: &JsonValue) -> (r: Self)
        ensures
            path_and_body_set_to(r.builder, self.builder, "/services"@, json_text(*entity)),
    {
        let mut s = self;
        let body = json_to_string(entity);
        s.builder.set_path("/services");
        s.builder.set_body(body.as_str());
        s
    }

    /// Resolve the URL and inject the authorization headers; no network
    /// activity happens here.
    pub fn prepare(&self) -> (r: ILertResult<PreparedRequest>)
        ensures
            r is Err <==> self.builder.options.path is None,
            r matches Err(e) ==> e@ == "Failed to build url, path missing."@,
            r matches Ok(p) ==> {
                &&& p.verb == HttpVerb::POST
                &&& p.url@ == self.builder.client.host@ + self.builder.client.api_ep@
                    + self.builder.options.path->0@
                &&& header_views(p.headers@) == header_views(self.builder.options.headers@)
                    + auth_header_views(*self.builder.client)
                &&& p.query@ == Seq::<(String, String)>::empty()
                &&& p.body == self.builder.options.body
            },
    {
        prepare_with_verb(&self.builder, HttpVerb::POST)
    }
}

/// The update builder: one resource method chooses path (and, for raw
/// documents, body), and the request executes with the PUT verb.
#[derive(Debug)]
pub struct PutRequestBuilder<'a> {
    pub builder: BaseRequestBuilder<'a>,
}

impl<'a> PutRequestBuilder<'a> {
    pub fn new(client: &'a ILert, _body: &str) -> (r: PutRequestBuilder<'a>)
        ensures
            r.builder.client == client,
            unconfigured(r.builder),
    {
        PutRequestBuilder { builder: BaseRequestBuilder::new(client) }
    }

    /// A caller-supplied alert document against `/alerts/{id}`.
    pub fn alert_raw(self, id: i64, entity: &JsonValue) -> (r: Self)
        ensures
            path_and_body_set_to(
                r.builder,
                self.builder,
                "/alerts/"@ + int_text(id as int),
                json_text(*entity),
            ),
    {
        let mut s = self;
        let mut path = "/alerts/".to_owned();
        let num = i64_to_string(id);
        path.append(num.as_str());
        let body = json_to_string(entity);
        s.builder.set_path(path.as_str());
        s.builder.set_body(body.as_str());
        s
    }

    /// The accept transition for an alert: path only, no body.
    pub fn accept_alert(self, id: i64) -> (r: Self)
        ensures
            path_set_to(
                r.builder,
                self.builder,
                "/alerts/"@ + int_text(id as int) + "/accept"@,
            ),
    {
        let mut s = self;
        let mut path = "/alerts/".to_owned();
        let num = i64_to_string(id);
        path.append(num.as_str());
        path.append("/accept");
        s.builder.set_path(path.as_str());
        s
    }

    /// The resolve transition for an alert: path only, no body.
    pub fn resolve_alert(self, id: i64) -> (r: Self)
        ensures
            path_set_to(
                r.builder,
                self.builder,
                "/alerts/"@ + int_text(id as int) + "/resolve"@,
            ),
    {
        let mut s = self;
        let mut path = "/alerts/".to_owned();
        let num = i64_to_string(id);
        path.append(num.as_str());
        path.append("/resolve");
        s.builder.set_path(path.as_str());
        s
    }

    /// A caller-supplied incident document against `/incidents/{id}`.
    pub fn incident_raw(self, id: i64, entity: &JsonValue) -> (r: Self)
        ensures
            path_and_body_set_to(
                r.builder,
                self.builder,
                "/incidents/"@ + int_text(id as int),
                json_text(*entity),
            ),
    {
        let mut s = self;
        let mut path = "/incidents/".to_owned();
        let num = i64_to_string(id);
        path.append(num.as_str());
        let body = json_to_string(entity);
        s.builder.set_path(path.as_str());
        s.builder.set_body(body.as_str());
        s
    }

    /// A caller-supplied service document against `/services/{id}`.
    pub fn service_raw(self, id: i64, entity: &JsonValue) -> (r: Self)
        ensures
            path_and_body_set_to(
                r.builder,
                self.builder,
                "/services/"@ + int_text(id as int),
                json_text(*entity),
            ),
    {
        let mut s = self;
        let mut path = "/services/".to_owned();
        let num = i64_to_string(id);
        path.append(num.as_str());
        let body = json_to_string(entity);
        s.builder.set_path(path.as_str());
        s.builder.set_body(body.as_str());
        s
    }

    /// Resolve the URL and inject the authorization headers; no network
    /// activity happens here.
    pub fn prepare(&self) -> (r: ILertResult<PreparedRequest>)
        ensures
            r is Err <==> self.builder.options.path is None,
            r matches Err(e) ==> e@ == "Failed to build url, path missing."@,
            r matches Ok(p) ==> {
                &&& p.verb == HttpVerb::PUT
                &&& p.url@ == self.builder.client.host@ + self.builder.client.api_ep@
                    + self.builder.options.path->0@
                &&& header_views(p.headers@) == header_views(self.builder.options.headers@)
                    + auth_header_views(*self.builder.client)
                &&& p.query@ == Seq::<(String, String)>::empty()
                &&& p.body == self.builder.options.body
            },
    {
        prepare_with_verb(&self.builder, HttpVerb::PUT)
    }
}

/// The delete builder: one resource method chooses the path, no body, and
/// the request executes with the DELETE verb.
#[derive(Debug)]
pub struct DeleteRequestBuilder<'a> {
    pub builder: BaseRequestBuilder<'a>,
}

impl<'a> DeleteRequestBuilder<'a> {
    pub fn new(client: &'a ILert) -> (r: DeleteRequestBuilder<'a>)
        ensures
            r.builder.client == client,
            unconfigured(r.builder),
    {
        DeleteRequestBuilder { builder: BaseRequestBuilder::new(client) }
    }

    pub fn incident(self, id: i64) -> (r: Self)
        ensures
            path_set_to(r.builder, self.builder, "/incidents/"@ + int_text(id as int)),
    {
        let mut s = self;
        let mut path = "/incidents/".to_owned();
        let num = i64_to_string(id);
        path.append(num.as_str());
        s.builder.set_path(path.as_str());
        s
    }

    pub fn service(self, id: i64) -> (r: Self)
        ensures
            path_set_to(r.builder, self.builder, "/services/"@ + int_text(id as int)),
    {
        let mut s = self;
        let mut path = "/services/".to_owned();
        let num = i64_to_string(id);
        path.append(num.as_str());
        s.builder.set_path(path.as_str());
        s
    }

    /// Resolve the URL and inject the authorization headers; no network
    /// activity happens here.
    pub fn prepare(&self) -> (r: ILertResult<PreparedRequest>)
        ensures
            r is Err <==> self.builder.options.path is None,
            r matches Err(e) ==> e@ == "Failed to build url, path missing."@,
            r matches Ok(p) ==> {
                &&& p.verb == HttpVerb::DELETE
                &&& p.url@ == self.builder.client.host@ + self.builder.client.api_ep@
                    + self.builder.options.path->0@
                &&& header_views(p.headers@) == header_views(self.builder.options.headers@)
                    + auth_header_views(*self.builder.client)
                &&& p.query@ == Seq::<(String, String)>::empty()
                &&& p.body == self.builder.options.body
            },
    {
        prepare_with_verb(&self.builder, HttpVerb::DELETE)
    }
}

impl ILert {
    /// Start a read request.
    pub fn get<'a>(&'a self) -> (r: GetRequestBuilder<'a>)
        ensures
            r.builder.client == self,
            unconfigured(r.builder),
    {
        GetRequestBuilder::new(self)
    }

    /// Start a create request. Kept for compatibility; `create` is the
    /// preferred name.
    pub fn post<'a>(&'a self) -> (r: PostRequestBuilder<'a>)
        ensures
            r.builder.client == self,
            unconfigured(r.builder),
    {
        PostRequestBuilder::new(self, "{}")
    }

    /// Start a create request.
    pub fn create<'a>(&'a self) -> (r: PostRequestBuilder<'a>)
        ensures
            r.builder.client == self,
            unconfigured(r.builder),
    {
        PostRequestBuilder::new(self, "{}")
    }

    /// Start an update request.
    pub fn update<'a>(&'a self) -> (r: PutRequestBuilder<'a>)
        ensures
            r.builder.client == self,
            unconfigured(r.builder),
    {
        PutRequestBuilder::new(self, "{}")
    }

    /// Start a delete request.
    pub fn delete<'a>(&'a self) -> (r: DeleteRequestBuilder<'a>)
        ensures
            r.builder.client == self,
            unconfigured(r.builder),
    {
        DeleteRequestBuilder::new(self)
    }
}

} // verus!
