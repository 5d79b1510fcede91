[package]
name = "todo_items"
version = "0.1.0"
edition = "2021"
publish = false

[dependencies]
axum = "0.5"
bson = { version = "2", features = ["uuid-0_8"] }
futures = "0.3"
mongodb = "2"
serde = { version = "1", features = ["derive"] }
tokio = { version = "1", features = ["full"] }
uuid = { version = "0.8", features = ["v4", "serde"] }
