[package]
name = "gimme_graphql"
version = "0.1.0"
edition = "2021"
publish = false

[dependencies]
juniper = "0.15"
juniper_hyper = "0.8"
hyper = { version = "0.14", features = ["server", "http1", "runtime"] }
r2d2 = "*"
diesel = { version = "*", features = ["r2d2"] }
dotenv = "*"
env_logger = "*"
