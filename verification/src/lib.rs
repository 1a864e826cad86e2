//! A small HTTP front door: a GraphQL endpoint, a GraphiQL explorer page,
//! and a few fixed text routes, behind a uniform middleware chain.
//!
//! The library holds the decisions the server makes: how the listening port
//! is resolved, which address it binds, what each route answers, and which
//! headers and policies every response carries. The surrounding process
//! (socket handling, the async runtime, GraphQL execution against the schema)
//! lives outside the library and consults it for every decision.

pub mod config;
pub mod middleware;
pub mod pages;
pub mod router;
