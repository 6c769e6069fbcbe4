[package]
name = "research_master"
version = "0.1.0"
edition = "2021"
publish = false

[dependencies]
urlencoding = "2"
serde = { version = "1", features = ["derive"] }
serde_json = "1"
async-trait = "0.1"
futures-util = "0.3"
chrono = "0.4"
dirs = "5"
tracing = "0.1"
reqwest = { version = "0.12", default-features = false, features = ["json"] }
