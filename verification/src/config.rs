//! Startup configuration: the listening port, the bind address, and the
//! URL of the GraphQL endpoint that the explorer page targets.
//!
//! The port is read from the environment once at startup; everything else
//! is derived from it, so the address the server binds and the endpoint the
//! page embeds can never disagree.

use vstd::prelude::*;
use vstd::string::StringExecFns;

verus! {

/// The port the server listens on when the environment names none.
pub open spec fn default_port() -> Seq<char> {
    "8080"@
}

/// The host every address and URL of this server names.
pub open spec fn bind_host_prefix() -> Seq<char> {
    "0.0.0.0:"@
}

/// The address the server binds for a given port.
pub open spec fn bind_address_spec(port: Seq<char>) -> Seq<char> {
    bind_host_prefix() + port
}

/// The URL of the GraphQL endpoint for a given port.
pub open spec fn graphql_url_spec(port: Seq<char>) -> Seq<char> {
    "http://"@ + bind_address_spec(port) + "/graphql"@
}

/// Resolve the listening port: the environment's value verbatim when one is
/// set, the default otherwise.
pub fn resolved_port(env_port: Option<String>) -> (r: String)
    ensures
        env_port matches Some(p) ==> r@ == p@,
        env_port is None ==> r@ == default_port(),
{
    match env_port {
        Some(p) => p,
        None => "8080".to_owned(),
    }
}

/// The address the server binds, `host:port`.
pub fn bind_address(port: &str) -> (r: String)
    ensures
        r@ == bind_address_spec(port@),
{
    let mut s: String = "0.0.0.0:".to_owned();
    s.append(port);
    s
}

/// The URL of the GraphQL endpoint on this server.
pub fn graphql_url(port: &str) -> (r: String)
    ensures
        r@ == graphql_url_spec(port@),
{
    let mut s: String = "http://".to_owned();
    let addr = bind_address(port);
    s.append(addr.as_str());
    s.append("/graphql");
    s
}

/// The endpoint URL embeds exactly the address the server binds, and that
/// address carries the port verbatim after the host prefix: whatever port is
/// configured, the page's target and the listening socket agree.
pub proof fn lemma_url_matches_bind_address(port: Seq<char>)
    ensures
        graphql_url_spec(port) == "http://"@ + bind_address_spec(port) + "/graphql"@,
        bind_address_spec(port).subrange(
            bind_host_prefix().len() as int,
            bind_address_spec(port).len() as int,
        ) == port,
{
    assert(bind_address_spec(port).subrange(
        bind_host_prefix().len() as int,
        bind_address_spec(port).len() as int,
    ) =~= port);
}

} // verus!
