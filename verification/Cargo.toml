[package]
name = "ipfs_ingest"
version = "0.1.0"
edition = "2021"
publish = false

[dependencies]
chrono = "*"
axum = "*"
tokio = { version = "*", features = ["macros", "rt-multi-thread", "net"] }
serde = { version = "*", features = ["derive"] }
serde_json = "*"
sqlx = { version = "*", default-features = false, features = ["runtime-tokio", "postgres"] }
reqwest = { version = "*", default-features = false, features = ["json"] }
dotenv = "*"
tower-http = { version = "*", features = ["cors"] }
