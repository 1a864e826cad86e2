use graphql_front::config::{bind_address, graphql_url, resolved_port};
use graphql_front::middleware::{cors_allows, cors_policy, with_version_header};
use graphql_front::pages::graphiql_page;
use graphql_front::router::{dispatch, graphql_reply, Action, Method, Reply};

fn respond(a: Action) -> Reply {
    match a {
        Action::Respond(r) => r,
        Action::ExecuteGraphql => panic!("expected a direct response"),
    }
}

fn has_header(r: &Reply, name: &str, value: &str) -> bool {
    r.headers.iter().any(|h| h.name == name && h.value == value)
}

#[test]
fn get_root_is_hello() {
    let r = respond(dispatch(Method::Get, "/", "8080"));
    assert_eq!(r.status, 200);
    assert_eq!(r.body, "Hello world!\r\n");
    assert_eq!(r.content_type, "text/plain; charset=utf-8");
}

#[test]
fn post_root_is_not_found() {
    let r = respond(dispatch(Method::Post, "/", "8080"));
    assert_eq!(r.status, 404);
}

#[test]
fn test1_answers_any_method() {
    for m in [Method::Get, Method::Post, Method::Other] {
        let r = respond(dispatch(m, "/test1.html", "8080"));
        assert_eq!(r.status, 200);
        assert_eq!(r.body, "Test\r\n");
    }
}

#[test]
fn get_resource2_is_hello_with_scoped_header() {
    let r = respond(dispatch(Method::Get, "/resource2/index.html", "8080"));
    assert_eq!(r.status, 200);
    assert_eq!(r.body, "Hello world!\r\n");
    assert!(has_header(&r, "X-Version-R2", "0.3"));
}

#[test]
fn resource2_keeps_both_version_headers() {
    let r = respond(dispatch(Method::Get, "/resource2/index.html", "8080"));
    let stamped = with_version_header(r);
    assert!(has_header(&stamped, "X-Version", "0.2"));
    assert!(has_header(&stamped, "X-Version-R2", "0.3"));
    assert_eq!(stamped.status, 200);
    assert_eq!(stamped.body, "Hello world!\r\n");
}

#[test]
fn post_resource2_is_method_not_allowed() {
    let r = respond(dispatch(Method::Post, "/resource2/index.html", "8080"));
    assert_eq!(r.status, 405);
    let r = respond(dispatch(Method::Other, "/resource2/index.html", "8080"));
    assert_eq!(r.status, 405);
}

#[test]
fn post_graphql_is_handed_to_the_executor() {
    assert!(matches!(
        dispatch(Method::Post, "/graphql", "8080"),
        Action::ExecuteGraphql
    ));
}

#[test]
fn get_graphql_is_not_found() {
    let r = respond(dispatch(Method::Get, "/graphql", "8080"));
    assert_eq!(r.status, 404);
}

#[test]
fn unknown_path_is_not_found() {
    let r = respond(dispatch(Method::Get, "/nowhere", "8080"));
    assert_eq!(r.status, 404);
}

#[test]
fn every_response_gets_the_version_header() {
    let r = respond(dispatch(Method::Get, "/", "8080"));
    let stamped = with_version_header(r);
    assert!(has_header(&stamped, "X-Version", "0.2"));
}

#[test]
fn get_graphiql_is_html_embedding_the_endpoint() {
    let r = respond(dispatch(Method::Get, "/graphiql", "8080"));
    assert_eq!(r.status, 200);
    assert_eq!(r.content_type, "text/html; charset=utf-8");
    assert!(r.body.contains("http://0.0.0.0:8080/graphql"));
}

#[test]
fn graphiql_page_is_more_than_the_url() {
    let page = graphiql_page("8080");
    let url = graphql_url("8080");
    assert!(page.contains(url.as_str()));
    assert_ne!(page, url);
    assert!(page.len() > url.len());
}

#[test]
fn port_default_and_override() {
    assert_eq!(resolved_port(None), "8080");
    assert_eq!(resolved_port(Some(String::from("3000"))), "3000");
}

#[test]
fn changed_port_moves_bind_address_and_page_together() {
    let port = resolved_port(Some(String::from("9000")));
    assert_eq!(bind_address(port.as_str()), "0.0.0.0:9000");
    assert_eq!(graphql_url(port.as_str()), "http://0.0.0.0:9000/graphql");
    let page = graphiql_page(port.as_str());
    assert!(page.contains("http://0.0.0.0:9000/graphql"));
    assert!(!page.contains("http://0.0.0.0:8080/graphql"));
}

#[test]
fn graphql_reply_wraps_the_serialized_document() {
    let r = graphql_reply(Ok(String::from("{\"data\":null}")));
    assert_eq!(r.status, 200);
    assert_eq!(r.content_type, "application/json");
    assert_eq!(r.body, "{\"data\":null}");
}

#[test]
fn graphql_reply_turns_a_pool_failure_into_500() {
    let r = graphql_reply(Err(String::from("worker pool gone")));
    assert_eq!(r.status, 500);
    assert_eq!(r.body, "");
}

#[test]
fn cors_policy_is_get_post_credentials_one_hour() {
    let p = cors_policy();
    assert!(p.allow_get && p.allow_post && p.supports_credentials);
    assert_eq!(p.max_age_seconds, 3600);
    assert!(cors_allows(&p, Method::Get));
    assert!(cors_allows(&p, Method::Post));
    assert!(!cors_allows(&p, Method::Other));
}
