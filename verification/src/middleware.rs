//! The uniform layers above the routing table: the global version header
//! that every response is stamped with, and the cross-origin policy.

use vstd::prelude::*;
use crate::router::{has_header, Header, Method, Reply};

verus! {

/// The name of the header every response of this server carries.
pub open spec fn version_header_name() -> Seq<char> {
    "X-Version"@
}

/// The value of that header.
pub open spec fn version_header_value() -> Seq<char> {
    "0.2"@
}

/// Stamp a response with the global version header. Status, content type,
/// body and every header the route already set are kept, so a route-scoped
/// header layers with the global one instead of being replaced by it.
pub fn with_version_header(reply: Reply) -> (out: Reply)
    ensures
        out.status == reply.status,
        out.content_type@ == reply.content_type@,
        out.body@ == reply.body@,
        out.headers@.len() == reply.headers@.len() + 1,
        forall|i: int|
            0 <= i < reply.headers@.len() ==> out.headers@[i] == reply.headers@[i],
        has_header(out.headers@, version_header_name(), version_header_value()),
        forall|n: Seq<char>, v: Seq<char>|
            #[trigger] has_header(reply.headers@, n, v) ==> has_header(out.headers@, n, v),
{
    let mut out = reply;
    let tag = Header { name: "X-Version".to_owned(), value: "0.2".to_owned() };
    out.headers.push(tag);
    proof {
        assert(out.headers@[out.headers@.len() - 1].name@ == "X-Version"@);
        assert forall|n: Seq<char>, v: Seq<char>|
            #[trigger] has_header(reply.headers@, n, v) implies has_header(
            out.headers@,
            n,
            v,
        ) by {
            let i = choose|i: int|
                0 <= i < reply.headers@.len() && (#[trigger] reply.headers@[i]).name@ == n
                    && reply.headers@[i].value@ == v;
            assert(out.headers@[i].name@ == n && out.headers@[i].value@ == v);
        }
    }
    out
}

/// The cross-origin policy the server applies, as the decisions it fixes.
pub struct CorsPolicy {
    pub allow_get: bool,
    pub allow_post: bool,
    pub supports_credentials: bool,
    pub max_age_seconds: u32,
}

/// This server's policy: only GET and POST may cross origins, credentials
/// are allowed, and a preflight answer may be cached for one hour.
pub fn cors_policy() -> (p: CorsPolicy)
    ensures
        p.allow_get,
        p.allow_post,
        p.supports_credentials,
        p.max_age_seconds == 3600,
{
    CorsPolicy {
        allow_get: true,
        allow_post: true,
        supports_credentials: true,
        max_age_seconds: 3600,
    }
}

/// Whether the policy lets a cross-origin request of this method through.
pub fn cors_allows(policy: &CorsPolicy, method: Method) -> (b: bool)
    ensures
        b == ((method is Get && policy.allow_get) || (method is Post && policy.allow_post)),
{
    match method {
        Method::Get => policy.allow_get,
        Method::Post => policy.allow_post,
        Method::Other => false,
    }
}

} // verus!
