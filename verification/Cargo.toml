[package]
name = "activitypub_federation"
version = "0.1.0"
edition = "2021"
publish = false

[dependencies]
actix-web = { version = "4", default-features = false }
anyhow = "1"
http-signature-normalization-actix = { version = "0.6", default-features = false, features = ["server", "sha-2"] }
serde = { version = "1", features = ["derive"] }
serde_json = "1"
tracing = { version = "0.1", features = ["log"] }
url = "2"
