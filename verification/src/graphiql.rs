//! The interactive explorer page, obtained from the GraphQL engine crate.

use vstd::prelude::*;

verus! {

/// The HTML of the explorer page for a given GraphQL endpoint URL, as the
/// engine crate renders it. The page is a long fixed template with the URL
/// spliced in; it depends on the URL alone, so it is named rather than
/// written out.
pub uninterp spec fn graphiql_source_of(graphql_endpoint_url: Seq<char>) -> Seq<char>;

/// Relies on `juniper::http::graphiql::graphiql_source`: renders the
/// explorer page for the given endpoint URL, with no subscriptions endpoint.
/// The result is a pure function of its arguments.
#[verifier::external_body]
pub fn graphiql_page(graphql_endpoint_url: &str) -> (page: String)
    ensures
        page@ == graphiql_source_of(graphql_endpoint_url@),
{
    juniper::http::graphiql::graphiql_source(graphql_endpoint_url, None)
}

} // verus!
