//! Plain models of the HTTP values the adapters decide over.
//!
//! A web framework hands the adapter a method, a path, query parameters and
//! a body; the adapter hands back a status code, a content type and a body.
//! These types carry exactly that information, so every routing and
//! status-mapping decision can be stated and proved over plain values.

use vstd::prelude::*;

verus! {

/// HTTP status for a well-formed GraphQL response (the engine's convention,
/// including responses that carry a GraphQL-level `errors` array).
pub const STATUS_OK: u16 = 200;

/// HTTP status for a request whose path and method match no registered route.
pub const STATUS_NOT_FOUND: u16 = 404;

/// HTTP status for a request whose context could not be built, most often
/// because the connection pool is exhausted.
pub const STATUS_SERVICE_UNAVAILABLE: u16 = 503;

/// The request methods the adapters route on.
#[derive(Clone, Copy, Debug, PartialEq, Eq, Structural)]
pub enum Method {
    Get,
    Post,
}

/// Content type of a response body, as far as this layer decides it.
#[derive(Clone, Copy, Debug, PartialEq, Eq, Structural)]
pub enum ContentType {
    /// No content type set by this layer.
    Unspecified,
    /// The interactive explorer page.
    Html,
    /// A GraphQL response payload.
    Json,
}

/// One `key=value` pair from a request's query string.
pub struct QueryItem {
    pub key: String,
    pub value: String,
}

/// An incoming request, reduced to what the adapters read from it.
pub struct Request {
    pub method: Method,
    pub path: String,
    pub query_items: Vec<QueryItem>,
    pub body: String,
}

/// A response as this layer determines it.
pub struct HttpResponse {
    pub status: u16,
    pub content_type: ContentType,
    pub body: String,
}

/// What the GraphQL engine produced for an executed request: the engine
/// alone decides these three values, and the adapter forwards them verbatim.
pub struct EngineResponse {
    pub status: u16,
    pub content_type: ContentType,
    pub body: String,
}

/// The 404 answer for a request that matched no registered route.
pub fn not_found_response() -> (r: HttpResponse)
    ensures
        r.status == STATUS_NOT_FOUND,
        r.content_type == ContentType::Unspecified,
        r.body@ == Seq::<char>::empty(),
{
    HttpResponse { status: STATUS_NOT_FOUND, content_type: ContentType::Unspecified, body: String::new() }
}

/// The 503 answer for a request whose context could not be built; the body
/// carries the construction error's display text.
pub fn service_unavailable_response(message: String) -> (r: HttpResponse)
    ensures
        r.status == STATUS_SERVICE_UNAVAILABLE,
        r.content_type == ContentType::Unspecified,
        r.body@ == message@,
{
    HttpResponse { status: STATUS_SERVICE_UNAVAILABLE, content_type: ContentType::Unspecified, body: message }
}

/// The 200 answer carrying the explorer page.
pub fn html_response(page: String) -> (r: HttpResponse)
    ensures
        r.status == STATUS_OK,
        r.content_type == ContentType::Html,
        r.body@ == page@,
{
    HttpResponse { status: STATUS_OK, content_type: ContentType::Html, body: page }
}

/// Forward the engine's response verbatim: status code, content type and
/// body are exactly the engine's decisions.
pub fn respond_with_engine_output(engine: EngineResponse) -> (r: HttpResponse)
    ensures
        r.status == engine.status,
        r.content_type == engine.content_type,
        r.body@ == engine.body@,
{
    HttpResponse { status: engine.status, content_type: engine.content_type, body: engine.body }
}

} // verus!
