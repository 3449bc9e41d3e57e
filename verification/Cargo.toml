[package]
name = "repakstrap"
version = "0.1.0"
edition = "2021"
publish = false

[dependencies]
anyhow = "1"
futures-util = "0.3"
humantime = "2"
reqwest = { version = "0.12", features = ["json", "stream"] }
semver = "1"
serde = { version = "1", features = ["derive"] }
termsize = "0.1"
tokio = { version = "1", features = ["rt", "net", "time"] }
