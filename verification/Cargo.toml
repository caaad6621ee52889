[package]
name = "clambake_github"
version = "0.1.0"
edition = "2021"
publish = false

[dependencies]
async-trait = "0.1"
octocrab = "=0.40.0"
tokio = { version = "1", features = ["rt", "time"] }
tracing = "0.1"
