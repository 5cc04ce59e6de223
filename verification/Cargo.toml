[package]
name = "ctr_checker"
version = "0.1.0"
edition = "2021"
publish = false

[dependencies]
uuid = { version = "=1.29.0", features = ["v4", "serde"] }
chrono = { version = "=0.4.45", features = ["serde"] }
solana-pubkey = "=2.4.0"
solana-signature = { version = "=2.3.0", features = ["verify"] }
serde = { version = "=1.0.229", features = ["derive"] }
serde_json = "=1.0.154"
jsonwebtoken = "=9.3.1"
axum = "=0.8.9"
tokio = { version = "=1.54.1", features = ["full"] }
tower-http = { version = "=0.6.11", features = ["cors", "trace"] }
tracing-subscriber = { version = "=0.3.23", features = ["env-filter", "json"] }
dotenvy = "=0.15.7"
diesel = { version = "=2.2.12", default-features = false, features = ["postgres_backend", "uuid", "chrono"] }
diesel-async = { version = "=0.5.2", features = ["postgres", "bb8"] }
diesel-derive-enum = { version = "=2.1.0", features = ["postgres"] }
bb8 = "=0.9.1"
bb8-redis = "=0.26.0"
validator = { version = "=0.21.0", features = ["derive"] }
# diesel-async calls futures_util::try_join! (src/pg/mod.rs) but depends on
# futures-util without its default features; this line turns the macro on.
futures-util = { version = "=0.3.34", features = ["async-await-macro"] }
aws-config = "=1.13.0"
aws-sdk-s3 = "=1.157.0"
