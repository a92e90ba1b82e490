[package]
name = "pos_terminal"
version = "0.1.0"
edition = "2021"
publish = false

[dependencies]
chrono = "0.4"
serde = { version = "1", features = ["derive"] }
serde_json = "1"
sqlx = { version = "0.7", default-features = false, features = ["sqlite", "runtime-async-std", "macros", "migrate"] }
reqwest = { version = "0.11", default-features = false, features = ["json"] }
async-std = { version = "1", features = ["attributes"] }
futures = "0.3"
log = "0.4"
