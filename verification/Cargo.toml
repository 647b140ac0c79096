[package]
name = "xmile"
version = "0.1.0"
edition = "2021"
publish = false

[dependencies]
quick-xml = "0.31"
serde = { version = "1", features = ["derive"] }
thiserror = "1"
