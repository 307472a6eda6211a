[package]
name = "user_service"
version = "0.1.0"
edition = "2021"
publish = false

[dependencies]
axum = { version = "0.7", default-features = false, features = ["http1", "json", "tokio"] }
serde = { version = "1", features = ["derive"] }
surrealdb = { version = "=1.5.6", default-features = false }
thiserror = "1"
tokio = { version = "1", features = ["macros", "net", "rt-multi-thread", "sync"] }
