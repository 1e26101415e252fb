[package]
name = "smacktivity"
version = "0.1.0"
edition = "2021"
publish = false

[dependencies]
argh = "0.1"
futures = "0.3"
heck = "0.5"
reqwest = { version = "0.12", default-features = false, features = ["json", "rustls-tls"] }
serde_json = { version = "1", features = ["preserve_order"] }
tokio = { version = "1", features = ["macros", "rt-multi-thread"] }
tracing-subscriber = "0.3"
url = "2"
