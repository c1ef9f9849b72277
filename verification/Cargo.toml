[package]
name = "llm_connector"
version = "0.1.0"
edition = "2021"
publish = false

[dependencies]
serde_json = "1"
serde = { version = "1", features = ["derive"] }
async-trait = "0.1"
reqwest = { version = "0.12", default-features = false }
