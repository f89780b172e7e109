[package]
name = "lnurl_settle"
version = "0.1.0"
edition = "2021"
publish = false

[dependencies]
anyhow = "*"
axum = "*"
axum-macros = "*"
futures = "*"
nostr = "*"
serde = { version = "*", features = ["derive"] }
serde_json = "*"
tracing = "*"
url = "*"
xmpp = "*"
