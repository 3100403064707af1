[package]
name = "parkeerservice"
version = "0.1.0"
edition = "2021"
publish = false

[dependencies]
chrono = "0.4"
clap = { version = "4", features = ["derive"] }
log = "0.4"
regex = "1"
reqwest = { version = "0.12", default-features = false, features = ["cookies", "rustls-tls"] }
serde_json = "1"
thiserror = "2"
tokio = { version = "1", features = ["rt", "macros"] }
tracing-subscriber = "0.3"
urlencoding = "2"
