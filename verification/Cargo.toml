[package]
name = "typedb_query"
version = "0.1.0"
edition = "2021"
publish = false

[dependencies]
futures = "0.3"
typedb-protocol = "2"
