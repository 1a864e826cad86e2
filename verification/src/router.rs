//! The routing table and the response model: which status, body, headers and
//! content type each route answers with, and what the middleware adds on top.

use vstd::prelude::*;
use crate::config::graphql_url_spec;
use crate::pages::{contains_seq, graphiql_html_of, graphiql_page};

verus! {

/// A request method, as far as the routing table distinguishes them.
#[derive(Clone, Copy, PartialEq, Eq, Structural, Debug)]
pub enum Method {
    Get,
    Post,
    Other,
}

/// One response header: a name and a value.
pub struct Header {
    pub name: String,
    pub value: String,
}

/// A response: status code, content type, route-scoped headers, and body.
pub struct Reply {
    pub status: u16,
    pub content_type: String,
    pub headers: Vec<Header>,
    pub body: String,
}

/// What the router decides for a request: answer directly, or execute the
/// posted GraphQL document and answer with its JSON serialization.
pub enum Action {
    Respond(Reply),
    ExecuteGraphql,
}

/// The body of the greeting routes.
pub open spec fn hello_body() -> Seq<char> {
    "Hello world!\r\n"@
}

/// The body of the test route.
pub open spec fn test_body() -> Seq<char> {
    "Test\r\n"@
}

/// The content type of the plain-text routes.
pub open spec fn text_content_type() -> Seq<char> {
    "text/plain; charset=utf-8"@
}

/// The content type of the explorer page.
pub open spec fn html_content_type() -> Seq<char> {
    "text/html; charset=utf-8"@
}

/// The content type of the GraphQL endpoint's responses.
pub open spec fn json_content_type() -> Seq<char> {
    "application/json"@
}

/// Whether `headers` carries a header of this name and value.
pub open spec fn has_header(headers: Seq<Header>, name: Seq<char>, value: Seq<char>) -> bool {
    exists|i: int|
        0 <= i < headers.len() && (#[trigger] headers[i]).name@ == name && headers[i].value@
            == value
}

/// A 200 text answer with this body and no route-scoped header.
pub open spec fn is_plain_ok(a: Action, body: Seq<char>) -> bool {
    &&& a matches Action::Respond(r)
    &&& r.status == 200
    &&& r.content_type@ == text_content_type()
    &&& r.body@ == body
    &&& r.headers@.len() == 0
}

/// A bare answer with this status: no body, no content type, no
/// route-scoped header.
pub open spec fn is_bare_status(a: Action, status: int) -> bool {
    &&& a matches Action::Respond(r)
    &&& r.status == status
    &&& r.content_type@.len() == 0
    &&& r.body@.len() == 0
    &&& r.headers@.len() == 0
}

/// Whether the routing table has a resource registered under this path.
pub open spec fn is_known_path(path: Seq<char>) -> bool {
    ||| path == "/"@
    ||| path == "/graphql"@
    ||| path == "/graphiql"@
    ||| path == "/resource2/index.html"@
    ||| path == "/test1.html"@
}

/// Whether the two views are equal, decided by comparing the owned strings.
fn str_eq(a: &str, b: &str) -> (r: bool)
    ensures
        r == (a@ == b@),
{
    let a_owned: String = a.to_owned();
    let b_owned: String = b.to_owned();
    a_owned == b_owned
}

/// A text answer: the given status and body, no route-scoped header.
fn plain_reply(status: u16, body: &str) -> (r: Reply)
    ensures
        r.status == status,
        r.content_type@ == text_content_type(),
        r.body@ == body@,
        r.headers@.len() == 0,
{
    Reply {
        status,
        content_type: "text/plain; charset=utf-8".to_owned(),
        headers: Vec::new(),
        body: body.to_owned(),
    }
}

/// A bare answer: the given status, an empty body, no route-scoped header.
fn bare_reply(status: u16) -> (r: Reply)
    ensures
        is_bare_status(Action::Respond(r), status as int),
{
    Reply {
        status,
        content_type: String::new(),
        headers: Vec::new(),
        body: String::new(),
    }
}

/// Decide a request against the routing table.
///
/// The table: the GraphQL endpoint takes POST and hands the document to the
/// executor; the explorer page and the two greeting routes take GET; the test
/// route takes any method; a GET of the second greeting route also carries a
/// route-scoped version header, and any other method there is refused with
/// 405. A path the table does not know is answered 404, as is a method not
/// registered for its path.
pub fn dispatch(method: Method, path: &str, port: &str) -> (a: Action)
    ensures
        a is ExecuteGraphql <==> (method is Post && path@ == "/graphql"@),
        path@ == "/"@ && method is Get ==> is_plain_ok(a, hello_body()),
        path@ == "/"@ && !(method is Get) ==> is_bare_status(a, 404),
        path@ == "/graphql"@ && !(method is Post) ==> is_bare_status(a, 404),
        path@ == "/graphiql"@ && method is Get ==> (a matches Action::Respond(r) && r.status
            == 200 && r.content_type@ == html_content_type() && r.body@ == graphiql_html_of(
            graphql_url_spec(port@),
        ) && contains_seq(r.body@, graphql_url_spec(port@)) && r.headers@.len() == 0),
        path@ == "/graphiql"@ && !(method is Get) ==> is_bare_status(a, 404),
        path@ == "/resource2/index.html"@ && method is Get ==> (a matches Action::Respond(r)
            && r.status == 200 && r.content_type@ == text_content_type() && r.body@
            == hello_body() && r.headers@.len() == 1 && has_header(
            r.headers@,
            "X-Version-R2"@,
            "0.3"@,
        )),
        path@ == "/resource2/index.html"@ && !(method is Get) ==> is_bare_status(a, 405),
        path@ == "/test1.html"@ ==> is_plain_ok(a, test_body()),
        !is_known_path(path@) ==> is_bare_status(a, 404),
{
    proof {
        reveal_strlit("/");
        reveal_strlit("/graphql");
        reveal_strlit("/graphiql");
        reveal_strlit("/resource2/index.html");
        reveal_strlit("/test1.html");
        assert("/"@.len() == 1);
        assert("/graphql"@.len() == 8);
        assert("/graphiql"@.len() == 9);
        assert("/resource2/index.html"@.len() == 21);
        assert("/test1.html"@.len() == 11);
    }
    if str_eq(path, "/graphql") {
        if matches!(method, Method::Post) {
            Action::ExecuteGraphql
        } else {
            Action::Respond(bare_reply(404))
        }
    } else if str_eq(path, "/graphiql") {
        if matches!(method, Method::Get) {
            let body = graphiql_page(port);
            Action::Respond(
                Reply {
                    status: 200,
                    content_type: "text/html; charset=utf-8".to_owned(),
                    headers: Vec::new(),
                    body,
                },
            )
        } else {
            Action::Respond(bare_reply(404))
        }
    } else if str_eq(path, "/") {
        if matches!(method, Method::Get) {
            Action::Respond(plain_reply(200, "Hello world!\r\n"))
        } else {
            Action::Respond(bare_reply(404))
        }
    } else if str_eq(path, "/resource2/index.html") {
        if matches!(method, Method::Get) {
            let mut reply = plain_reply(200, "Hello world!\r\n");
            let tag = Header { name: "X-Version-R2".to_owned(), value: "0.3".to_owned() };
            reply.headers.push(tag);
            proof {
                assert(reply.headers@[0].name@ == "X-Version-R2"@);
            }
            Action::Respond(reply)
        } else {
            Action::Respond(bare_reply(405))
        }
    } else if str_eq(path, "/test1.html") {
        Action::Respond(plain_reply(200, "Test\r\n"))
    } else {
        Action::Respond(bare_reply(404))
    }
}

/// Wrap the GraphQL executor's outcome: a serialized result is answered 200
/// with the JSON document; a failure of the worker pool or of serialization
/// surfaces as a bare 500. GraphQL-level errors never reach the `Err` arm:
/// the executor folds them into the document it returns.
pub fn graphql_reply(outcome: Result<String, String>) -> (r: Reply)
    ensures
        outcome matches Ok(json) ==> r.status == 200 && r.content_type@ == json_content_type()
            && r.body@ == json@ && r.headers@.len() == 0,
        outcome is Err ==> is_bare_status(Action::Respond(r), 500),
{
    match outcome {
        Ok(json) => Reply {
            status: 200,
            content_type: "application/json".to_owned(),
            headers: Vec::new(),
            body: json,
        },
        Err(_) => bare_reply(500),
    }
}

} // verus!
