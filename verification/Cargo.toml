[package]
name = "nlsql"
version = "0.1.0"
edition = "2021"
publish = false

[dependencies]
reqwest = { version = "*", default-features = false, features = ["blocking", "json"] }
tokio = { version = "*", features = ["rt-multi-thread", "macros"] }
tokio-postgres = { version = "*", features = ["with-chrono-0_4"] }
chrono = "0.4"
serde = { version = "1", features = ["derive"] }
serde_json = "1"
dotenv = "0.15"
thiserror = "*"
