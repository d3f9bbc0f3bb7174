[package]
name = "datesheet"
version = "0.1.0"
edition = "2021"
publish = false

[dependencies]
anyhow = "*"
axum = "*"
http = "*"
printpdf = "*"
time = "*"
tokio = { version = "*", features = ["full"] }
tower-http = { version = "*", features = ["trace"] }
tracing = "*"
tracing-subscriber = { version = "*", features = ["json"] }
