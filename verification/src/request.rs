use vstd::prelude::*;

use base64::Engine;

use crate::client::ILert;
use crate::errors::ILertError;
use crate::errors::ILertResult;
use crate::json::joined;
use crate::json::json_wellformed;
use crate::json::lemma_joined_push;
use crate::json::parse_json;
use crate::text::form_encoded_text;
use crate::text::lower_text;
use crate::text::push_form_encoded;
use crate::text::str_eq;
use crate::text::str_eq_ignore_ascii_case;

verus! {

/// What the standard base64 encoding of a text's UTF-8 bytes is.
pub uninterp spec fn base64_of(s: Seq<char>) -> Seq<char>;

/// Relies on `base64::engine::general_purpose::STANDARD.encode`: the
/// encoding of the input's UTF-8 bytes is a function of those bytes alone.
/// The buffer-size computation inside it cannot overflow, because a
/// string's byte length never exceeds isize::MAX.
#[verifier::external_body]
fn base64_encode(s: &str) -> (r: String)
    ensures
        r@ == base64_of(s@),
{
    base64::engine::general_purpose::STANDARD.encode(s.as_bytes())
}

/// The headers as pairs of texts, in order.
pub open spec fn header_views(h: Seq<(String, String)>) -> Seq<(Seq<char>, Seq<char>)> {
    h.map_values(|p: (String, String)| (p.0@, p.1@))
}

/// The query filters as pairs of texts: an unset filter list is empty.
pub open spec fn filter_views(f: Option<Vec<(String, String)>>) -> Seq<(Seq<char>, Seq<char>)> {
    match f {
        Some(v) => header_views(v@),
        None => Seq::empty(),
    }
}

fn clone_string_pairs(v: &Vec<(String, String)>) -> (r: Vec<(String, String)>)
    ensures
        r@ == v@,
{
    let mut out: Vec<(String, String)> = Vec::new();
    let n = v.len();
    let mut i: usize = 0;
    while i < n
        invariant
            i <= n,
            n == v@.len(),
            out@ =~= v@.take(i as int),
        decreases n - i,
    {
        let p = &v[i];
        out.push((p.0.clone(), p.1.clone()));
        proof {
            assert(out@ =~= v@.take(i + 1 as int));
        }
        i += 1;
    }
    proof {
        assert(v@.take(n as int) =~= v@);
    }
    out
}

pub(crate) fn extend_string_pairs(dst: &mut Vec<(String, String)>, src: &Vec<(String, String)>)
    ensures
        final(dst)@ == old(dst)@ + src@,
{
    let n = src.len();
    let mut i: usize = 0;
    proof {
        assert(old(dst)@ + src@.take(0) =~= old(dst)@);
    }
    while i < n
        invariant
            i <= n,
            n == src@.len(),
            dst@ == old(dst)@ + src@.take(i as int),
        decreases n - i,
    {
        let p = &src[i];
        dst.push((p.0.clone(), p.1.clone()));
        proof {
            assert(dst@ =~= old(dst)@ + src@.take(i + 1 as int));
        }
        i += 1;
    }
    proof {
        assert(src@.take(n as int) =~= src@);
        assert(final(dst)@ =~= old(dst)@ + src@);
    }
}

fn clone_opt_string(v: &Option<String>) -> (r: Option<String>)
    ensures
        r == *v,
{
    match v {
        Some(s) => Some(s.clone()),
        None => None,
    }
}

/// The per-request option bag: target path, resolved URL, headers to send,
/// optional body. The URL is set only by the preparation step.
#[derive(Debug)]
pub struct BaseRequestOptions {
    pub path: Option<String>,
    pub url: Option<String>,
    pub headers: Vec<(String, String)>,
    pub body: Option<String>,
}

impl BaseRequestOptions {
    pub fn new() -> (r: BaseRequestOptions)
        ensures
            r.path is None,
            r.url is None,
            r.headers@ == Seq::<(String, String)>::empty(),
            r.body is None,
    {
        BaseRequestOptions { path: None, url: None, headers: Vec::new(), body: None }
    }
}

/// The state every verb builder shares: the owning client, the option bag,
/// and the GET-only query extras.
#[derive(Debug)]
pub struct BaseRequestBuilder<'a> {
    pub client: &'a ILert,
    pub options: BaseRequestOptions,
    pub start_index: Option<i64>,
    pub max_results: Option<i32>,
    pub filters: Option<Vec<(String, String)>>,
}

impl<'a> BaseRequestBuilder<'a> {
    pub fn new(client: &'a ILert) -> (r: BaseRequestBuilder<'a>)
        ensures
            r.client == client,
            r.options.path is None,
            r.options.url is None,
            r.options.headers@ == Seq::<(String, String)>::empty(),
            r.options.body is None,
            r.start_index is None,
            r.max_results is None,
            r.filters is None,
    {
        BaseRequestBuilder {
            client,
            options: BaseRequestOptions::new(),
            start_index: None,
            max_results: None,
            filters: None,
        }
    }

    pub fn set_path(&mut self, path: &str)
        ensures
            final(self).options.path matches Some(p) && p@ == path@,
            final(self).options.url == old(self).options.url,
            final(self).options.headers == old(self).options.headers,
            final(self).options.body == old(self).options.body,
            final(self).client == old(self).client,
            final(self).start_index == old(self).start_index,
            final(self).max_results == old(self).max_results,
            final(self).filters == old(self).filters,
    {
        self.options.path = Some(path.to_owned());
    }

    pub fn set_body(&mut self, body: &str)
        ensures
            final(self).options.body matches Some(b) && b@ == body@,
            final(self).options.path == old(self).options.path,
            final(self).options.url == old(self).options.url,
            final(self).options.headers == old(self).options.headers,
            final(self).client == old(self).client,
            final(self).start_index == old(self).start_index,
            final(self).max_results == old(self).max_results,
            final(self).filters == old(self).filters,
    {
        self.options.body = Some(body.to_owned());
    }

    pub fn add_filter(&mut self, key: &str, val: &str)
        ensures
            filter_views(final(self).filters) == filter_views(old(self).filters).push(
                (key@, val@),
            ),
            final(self).options == old(self).options,
            final(self).client == old(self).client,
            final(self).start_index == old(self).start_index,
            final(self).max_results == old(self).max_results,
    {
        if self.filters.is_none() {
            self.filters = Some(Vec::new());
        }
        match &mut self.filters {
            Some(v) => {
                let ghost prev = v@;
                v.push((key.to_owned(), val.to_owned()));
                proof {
                    assert(header_views(v@) =~= header_views(prev).push((key@, val@)));
                }
            },
            None => {
                proof {
                    assert(false);
                }
            },
        }
        proof {
            assert(filter_views(final(self).filters) =~= filter_views(old(self).filters).push(
                (key@, val@),
            ));
        }
    }
}

/// A builder fresh from a verb-entry method: nothing configured yet.
pub open spec fn unconfigured(b: BaseRequestBuilder<'_>) -> bool {
    &&& b.options.path is None
    &&& b.options.url is None
    &&& b.options.headers@ == Seq::<(String, String)>::empty()
    &&& b.options.body is None
    &&& b.start_index is None
    &&& b.max_results is None
    &&& b.filters is None
}

/// The authorization headers the preparation step appends for a client:
/// a `Bearer` header when a token is set, then a `Basic` header when both
/// basic-auth fields are set; both when both credential forms are set.
pub open spec fn auth_header_views(c: ILert) -> Seq<(Seq<char>, Seq<char>)> {
    (if c.api_token is Some {
        seq![("Authorization"@, "Bearer "@ + c.api_token->0@)]
    } else {
        Seq::empty()
    }) + (if c.auth_user is Some && c.auth_psw is Some {
        seq![
            (
                "Authorization"@,
                "Basic "@ + base64_of(c.auth_user->0@ + ":"@ + c.auth_psw->0@),
            ),
        ]
    } else {
        Seq::empty()
    })
}

/// The shared preparation step: fails when no path was set, otherwise
/// resolves the URL and appends the authorization headers.
pub fn prepare_generic_request_builder(builder: &BaseRequestBuilder) -> (r: ILertResult<
    BaseRequestOptions,
>)
    ensures
        r is Err <==> builder.options.path is None,
        r matches Err(e) ==> e@ == "Failed to build url, path missing."@,
        r matches Ok(opts) ==> {
            &&& opts.path == builder.options.path
            &&& opts.body == builder.options.body
            &&& opts.url matches Some(u) && u@ == builder.client.host@ + builder.client.api_ep@
                + builder.options.path->0@
            &&& header_views(opts.headers@) == header_views(builder.options.headers@)
                + auth_header_views(*builder.client)
        },
{
    let path_text: &String = match &builder.options.path {
        Some(p) => p,
        None => {
            return Err(ILertError::new("Failed to build url, path missing."));
        },
    };
    let url = builder.client.build_url(path_text.as_str());
    let mut headers = clone_string_pairs(&builder.options.headers);
    let ghost base = headers@;
    match &builder.client.api_token {
        Some(token) => {
            let mut val = "Bearer ".to_owned();
            val.append(token.as_str());
            headers.push(("Authorization".to_owned(), val));
        },
        None => {},
    }
    proof {
        let token_part: Seq<(Seq<char>, Seq<char>)> = if builder.client.api_token is Some {
            seq![("Authorization"@, "Bearer "@ + builder.client.api_token->0@)]
        } else {
            Seq::empty()
        };
        assert(header_views(headers@) =~= header_views(base) + token_part);
    }
    let ghost with_token = headers@;
    match &builder.client.auth_user {
        Some(user) => {
            match &builder.client.auth_psw {
                Some(psw) => {
                    let mut cred = user.clone();
                    cred.push(':');
                    cred.append(psw.as_str());
                    let encoded = base64_encode(cred.as_str());
                    let mut val = "Basic ".to_owned();
                    val.append(encoded.as_str());
                    headers.push(("Authorization".to_owned(), val));
                    proof {
                        reveal_strlit(":");
                        assert(cred@ =~= builder.client.auth_user->0@ + ":"@
                            + builder.client.auth_psw->0@);
                    }
                },
                None => {},
            }
        },
        None => {},
    }
    proof {
        let basic_part: Seq<(Seq<char>, Seq<char>)> = if builder.client.auth_user is Some
            && builder.client.auth_psw is Some {
            seq![
                (
                    "Authorization"@,
                    "Basic "@ + base64_of(
                        builder.client.auth_user->0@ + ":"@ + builder.client.auth_psw->0@,
                    ),
                ),
            ]
        } else {
            Seq::empty()
        };
        assert(header_views(headers@) =~= header_views(with_token) + basic_part);
        assert(header_views(headers@) =~= header_views(builder.options.headers@)
            + auth_header_views(*builder.client));
    }
    Ok(
        BaseRequestOptions {
            path: clone_opt_string(&builder.options.path),
            url: Some(url),
            headers,
            body: clone_opt_string(&builder.options.body),
        },
    )
}

/// The HTTP verb a prepared request executes with.
#[derive(Debug, Clone, Copy, PartialEq, Eq, Structural)]
pub enum HttpVerb {
    GET,
    POST,
    PUT,
    DELETE,
}

/// Everything the transport needs to perform one request: verb, resolved
/// URL, headers, query parameters, and an optional body.
#[derive(Debug)]
pub struct PreparedRequest {
    pub verb: HttpVerb,
    pub url: String,
    pub headers: Vec<(String, String)>,
    pub query: Vec<(String, String)>,
    pub body: Option<String>,
}

/// The rendered form of a query parameter list: `key=value` pairs joined
/// by `&`, each side form-encoded.
pub open spec fn query_text(pairs: Seq<(String, String)>) -> Seq<char> {
    joined(
        pairs.map_values(
            |p: (String, String)| form_encoded_text(p.0@) + seq!['='] + form_encoded_text(p.1@),
        ),
        seq!['&'],
    )
}

impl PreparedRequest {
    /// The query string this request carries, rendered; empty when there
    /// are no query parameters.
    pub fn query_string(&self) -> (r: String)
        ensures
            r@ == query_text(self.query@),
    {
        let mut out = String::new();
        let n = self.query.len();
        let mut i: usize = 0;
        while i < n
            invariant
                i <= n,
                n == self.query@.len(),
                out@ == query_text(self.query@.take(i as int)),
            decreases n - i,
        {
            let ghost enc = |p: (String, String)|
                form_encoded_text(p.0@) + seq!['='] + form_encoded_text(p.1@);
            let ghost prev_mapped = self.query@.take(i as int).map_values(enc);
            if i > 0 {
                out.push('&');
            }
            push_form_encoded(self.query[i].0.as_str(), &mut out);
            out.push('=');
            push_form_encoded(self.query[i].1.as_str(), &mut out);
            proof {
                lemma_joined_push(prev_mapped, seq!['&'], enc(self.query@[i as int]));
                assert(self.query@.take(i + 1 as int).map_values(enc) =~= prev_mapped.push(
                    enc(self.query@[i as int]),
                ));
                assert(out@ =~= query_text(self.query@.take(i + 1 as int)));
            }
            i += 1;
        }
        proof {
            assert(self.query@.take(n as int) =~= self.query@);
        }
        out
    }
}

/// The normalized result of one executed request.
#[derive(Debug)]
pub struct BaseRequestResult {
    pub url: String,
    pub status: u16,
    pub headers: Vec<(String, String)>,
    pub body_raw: Option<String>,
    pub body_json: Option<serde_json::Value>,
}

impl BaseRequestResult {
    pub fn new(
        url: String,
        status: u16,
        headers: Vec<(String, String)>,
        body_raw: Option<String>,
        body_json: Option<serde_json::Value>,
    ) -> (r: BaseRequestResult)
        ensures
            r.url == url,
            r.status == status,
            r.headers == headers,
            r.body_raw == body_raw,
            r.body_json == body_json,
    {
        BaseRequestResult { url, status, headers, body_raw, body_json }
    }
}

/// The value of the first header whose name matches case-insensitively,
/// as HTTP header names compare.
pub open spec fn header_lookup(h: Seq<(String, String)>, name: Seq<char>) -> Option<Seq<char>>
    decreases h.len(),
{
    if h.len() == 0 {
        None
    } else if lower_text(h[0].0@) == lower_text(name) {
        Some(h[0].1@)
    } else {
        header_lookup(h.drop_first(), name)
    }
}

/// Whether the response headers say the body is JSON: a `content-type`
/// header whose value is exactly `application/json`.
pub open spec fn json_content_type(h: Seq<(String, String)>) -> bool {
    header_lookup(h, "content-type"@) == Some("application/json"@)
}

/// The first header with the given name, compared case-insensitively.
pub fn get_header<'h>(headers: &'h Vec<(String, String)>, name: &str) -> (r: Option<&'h String>)
    ensures
        match r {
            Some(v) => header_lookup(headers@, name@) == Some(v@),
            None => header_lookup(headers@, name@) is None,
        },
{
    let n = headers.len();
    let mut i: usize = 0;
    proof {
        assert(headers@.skip(0) =~= headers@);
    }
    while i < n
        invariant
            i <= n,
            n == headers@.len(),
            header_lookup(headers@, name@) == header_lookup(headers@.skip(i as int), name@),
        decreases n - i,
    {
        let ghost rest = headers@.skip(i as int);
        if str_eq_ignore_ascii_case(headers[i].0.as_str(), name) {
            proof {
                assert(rest[0] == headers@[i as int]);
            }
            return Some(&headers[i].1);
        }
        proof {
            assert(rest[0] == headers@[i as int]);
            assert(rest.drop_first() =~= headers@.skip(i + 1 as int));
        }
        i += 1;
    }
    proof {
        assert(headers@.skip(n as int) =~= Seq::<(String, String)>::empty());
    }
    None
}

/// Normalize one response: keep status and headers verbatim, keep the raw
/// body as it came, and parse the body as JSON exactly when one is present
/// and the headers declare `application/json`; a parse failure of such a
/// body fails the whole call.
pub fn normalize_response(
    url: String,
    status: u16,
    headers: Vec<(String, String)>,
    body_raw: Option<String>,
) -> (r: ILertResult<BaseRequestResult>)
    ensures
        r is Err <==> (body_raw matches Some(b) && json_content_type(headers@)
            && !json_wellformed(b@)),
        r matches Ok(res) ==> {
            &&& res.url == url
            &&& res.status == status
            &&& res.headers == headers
            &&& res.body_raw == body_raw
            &&& (res.body_json is Some <==> (body_raw is Some && json_content_type(headers@)))
        },
{
    let body_json: Option<serde_json::Value> = match &body_raw {
        Some(raw) => {
            match get_header(&headers, "content-type") {
                Some(ct) => {
                    if str_eq(ct.as_str(), "application/json") {
                        match parse_json(raw.as_str()) {
                            Ok(v) => Some(v),
                            Err(msg) => {
                                return Err(ILertError::new(msg.as_str()));
                            },
                        }
                    } else {
                        None
                    }
                },
                None => None,
            }
        },
        None => None,
    };
    Ok(BaseRequestResult::new(url, status, headers, body_raw, body_json))
}

} // verus!
