[package]
name = "ezraft"
version = "0.1.0"
edition = "2021"
publish = false

[dependencies]
anyerror = "*"
peel-off = "*"
validit = "*"
serde = { version = "1", features = ["derive"] }
serde_json = "1"
thiserror = "*"
derive_more = { version = "*", features = ["display"] }
tokio = { version = "1", features = ["time", "sync", "rt", "macros"] }
reqwest = { version = "*", default-features = false, features = ["json"] }
futures = "*"
async-trait = "*"
