[package]
name = "hylacviet"
version = "0.1.0"
edition = "2021"
publish = false

[dependencies]
image = "*"
uuid = { version = "*", features = ["v4"] }
sha2 = "*"
serde_json = "*"
serde = { version = "*", features = ["derive"] }
axum = { version = "*", features = ["multipart"] }
tokio = { version = "*", features = ["full"] }
tower-http = { version = "*", features = ["cors", "fs"] }
rusqlite = { version = "*", features = ["bundled"] }
chrono = "*"
jsonwebtoken = "*"
