[package]
name = "git_host"
version = "0.1.0"
edition = "2021"
publish = false

[dependencies]
url = "2"
reqwest = { version = "*", default-features = false, features = ["json"] }
serde = { version = "1", features = ["derive"] }
serde_json = "1"
thiserror = "*"
chrono = { version = "0.4", features = ["serde"] }
backon = "1"
tracing = "0.1"
async-trait = "0.1"
tokio = "1"
dirs = "*"
axum = { version = "*", default-features = false, features = ["json"] }
tower-http = { version = "*", default-features = false, features = ["compression-gzip", "validate-request"] }
schemars = "*"
ts-rs = "*"
derivative = "2"
