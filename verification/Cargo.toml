[package]
name = "pandora_core"
version = "0.1.0"
edition = "2021"
publish = false

[dependencies]
chrono = "0.4"
oauth2 = "5"
reqwest = { version = "0.12", default-features = false, features = ["json"] }
serde = { version = "1", features = ["derive"] }
serde_json = "1"
tiny_http = "0.12"
tokio = { version = "1", features = ["rt", "macros", "sync"] }
tokio-util = "0.7"
