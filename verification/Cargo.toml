[package]
name = "payment_ledger"
version = "0.1.0"
edition = "2021"
publish = false

[dependencies]
log = "=0.4.34"
serde_json = "=1.0.154"
sqlx = { version = "=0.7.4", default-features = false, features = ["sqlite", "runtime-tokio"] }
tari_common_types = "=6.2.0"

[dev-dependencies]
tokio = { version = "=1.54.1", features = ["rt"] }
