[package]
name = "pj"
version = "0.1.0"
edition = "2021"
publish = false

[dependencies]
pingora-core = "*"
tokio = { version = "*", features = ["full"] }
async-trait = "*"
tracing = "*"
tracing-subscriber = { version = "*", features = ["env-filter"] }
clap = { version = "*", features = ["derive"] }
