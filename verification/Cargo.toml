[package]
name = "lemon_tree_core"
version = "0.1.0"
edition = "2021"
publish = false

[dependencies]
rand = "0.8"
serde = { version = "1", features = ["derive"] }
serde_json = "1"
tokio = { version = "1", features = ["full"] }
axum = "0.6"
http = "0.2"
reqwest = { version = "0.11", default-features = false, features = ["json"] }
async-trait = "0.1"
async-stream = "0.3"
futures = "0.3"
