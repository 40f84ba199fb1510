[package]
name = "grid_kernel"
version = "0.1.0"
edition = "2021"
publish = false

[dependencies]
sha2 = "=0.10.9"
hex = "=0.4.3"
csv = "=1.4.0"
serde = { version = "=1.0.229", features = ["derive"] }
serde_json = "=1.0.154"
quick-xml = "*"
zip = { version = "*", default-features = false, features = ["deflate"] }
chrono = "*"
