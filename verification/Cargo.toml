[package]
name = "graphql_front"
version = "0.1.0"
edition = "2021"
publish = false

[dependencies]
juniper = "*"
actix-web = "*"
actix-cors = "*"
env_logger = "*"
serde_json = "*"
