[package]
name = "ticket_store"
version = "0.1.0"
edition = "2021"
publish = false

[dependencies]
rocket = { version = "0.5", features = ["json"] }
thiserror = "1"
tokio = { version = "1", features = ["sync", "rt", "rt-multi-thread"] }
