[package]
name = "pg_relay"
version = "0.1.0"
edition = "2021"
publish = false

[dependencies]
anyhow = "1"
dashmap = "*"
deadpool-postgres = "*"
env_logger = "*"
http-body-util = "0.1"
hyper = { version = "1", features = ["http1", "server"] }
hyper-util = { version = "0.1", features = ["tokio"] }
jsonschema = { version = "*", default-features = false }
log = "0.4"
openssl = "*"
postgres-openssl = "*"
serde = { version = "1", features = ["derive"] }
serde_json = "1"
tokio = { version = "1", features = ["full"] }
tokio-postgres = { version = "*", features = ["with-serde_json-1"] }
toml = "*"
