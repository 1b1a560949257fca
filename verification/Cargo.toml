[package]
name = "wantjob"
version = "0.1.0"
edition = "2021"
publish = false

[dependencies]
minify-html = "*"
axum = "*"
tokio = { version = "*", features = ["full"] }
tower-http = { version = "*", features = ["trace", "catch-panic"] }
tracing = "*"
tracing-subscriber = { version = "*", features = ["env-filter"] }
gethostname = "*"
anyhow = "*"
