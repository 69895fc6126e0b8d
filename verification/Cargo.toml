[package]
name = "bookstore"
version = "0.1.0"
edition = "2021"
publish = false

[dependencies]
askama = "0.12"
chrono = "0.4"
serde = { version = "1", features = ["derive"] }
thiserror = "1"
tokio = { version = "1", features = ["macros", "rt-multi-thread"] }
uuid = { version = "1", features = ["v4"] }
warp = "0.3"
