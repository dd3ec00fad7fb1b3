[package]
name = "rig_surrealdb"
version = "0.1.0"
edition = "2021"
publish = false

[dependencies]
rig-core = { version = "0.35", default-features = false }
serde = { version = "1", features = ["derive"] }
serde_json = "1"
surrealdb = { version = "=3.3.5", default-features = false, features = ["protocol-ws"] }
