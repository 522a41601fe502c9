[package]
name = "lldap_backend"
version = "0.1.0"
edition = "2021"
publish = false

[dependencies]
sea-query = { version = "*", features = ["with-chrono"] }
itertools = "0.10"
chrono = "0.4"
sqlx = { version = "*", default-features = false, features = ["sqlite", "runtime-tokio", "chrono"] }
async-trait = "0.1"
futures-util = "0.3"

[dev-dependencies]
tokio = { version = "1", features = ["rt"] }
