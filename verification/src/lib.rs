//! A typed client library for the ilert incident/alerting REST service.
//!
//! The library is the verified core of the client: it builds authenticated
//! requests against the service's fixed set of resource paths and
//! normalizes responses. A verb builder ([`builders::GetRequestBuilder`],
//! [`builders::PostRequestBuilder`], [`builders::PutRequestBuilder`],
//! [`builders::DeleteRequestBuilder`]) accumulates one request's
//! configuration; its `prepare` step resolves the URL and injects the
//! authorization headers; [`request::normalize_response`] turns a raw
//! response into the [`request::BaseRequestResult`] handed back to the
//! caller. The blocking HTTP transport itself stays outside the library:
//! it receives a [`request::PreparedRequest`] and hands back status,
//! headers and body text.

pub mod builders;
pub mod client;
pub mod errors;
pub mod events;
pub mod json;
pub mod request;
pub mod text;
