[package]
name = "tomato_ui"
version = "0.1.0"
edition = "2021"
publish = false

[dependencies]
regex = "1"
sha2 = "0.10"
hex = "0.4"
uuid = { version = "1", features = ["v4"] }
anyhow = "1"
serde = { version = "1", features = ["derive"] }
serde_json = "1"
serde_yaml = "0.9"
axum = "0.7"
tokio = { version = "1", features = ["rt-multi-thread", "macros", "net", "signal", "sync", "fs"] }
tokio-util = { version = "0.7", features = ["io"] }
futures-core = "0.3"
tracing = "0.1"
crossterm = "0.28"
ratatui = "0.28"
textwrap = "0.16"
crossbeam-channel = "0.5"
zip = { version = "0.6", default-features = false, features = ["deflate"] }
tempfile = "3"
image = { version = "0.25", default-features = false, features = ["jpeg", "png"] }
arboard = { version = "3", default-features = false }
