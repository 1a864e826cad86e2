//! The GraphiQL explorer page: fixed HTML with the GraphQL endpoint URL of
//! this server spliced in, so the page queries the very address the server
//! listens on.

use vstd::prelude::*;
use crate::config::{graphql_url, graphql_url_spec};

verus! {

/// Whether `needle` occurs in `hay` as a contiguous run.
pub open spec fn contains_seq(hay: Seq<char>, needle: Seq<char>) -> bool {
    exists|i: int|
        0 <= i && i + needle.len() <= hay.len() && #[trigger] hay.subrange(i, i + needle.len())
            == needle
}

/// What `juniper::http::graphiql::graphiql_source` returns for a given
/// endpoint URL. The page is a fixed template with the URL spliced in, so
/// the result is a function of the URL alone.
pub uninterp spec fn graphiql_html_of(url: Seq<char>) -> Seq<char>;

/// Relies on `juniper::http::graphiql::graphiql_source`: it replaces a fixed
/// marker of its bundled HTML template with a script block that carries the
/// endpoint URL verbatim, so the URL is a contiguous run of the result.
#[verifier::external_body]
fn graphiql_source_html(url: &str) -> (r: String)
    ensures
        r@ == graphiql_html_of(url@),
        contains_seq(r@, url@),
{
    juniper::http::graphiql::graphiql_source(url, None)
}

/// The explorer page for the server that listens on `port`: it embeds, as a
/// contiguous run, the URL of the GraphQL endpoint on that same port.
pub fn graphiql_page(port: &str) -> (r: String)
    ensures
        r@ == graphiql_html_of(graphql_url_spec(port@)),
        contains_seq(r@, graphql_url_spec(port@)),
{
    let url = graphql_url(port);
    graphiql_source_html(url.as_str())
}

} // verus!
