[package]
name = "bexo_services"
version = "0.1.0"
edition = "2021"
publish = false

[dependencies]
uuid = { version = "=1.29.0", features = ["v4"] }
sha2 = "=0.10.9"
serde = { version = "=1.0.229", features = ["derive"] }
serde_json = "=1.0.154"
chrono = "0.4"
reqwest = { version = "0.12", default-features = false, features = ["json"] }

[dev-dependencies]
