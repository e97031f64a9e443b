[package]
name = "erp"
version = "0.1.0"
edition = "2021"
publish = false

[dependencies]
failure = "0.1"
postgres = { version = "0.19", features = ["with-uuid-1"] }
postgres-types = { version = "0.2", features = ["derive", "with-uuid-1"] }
rocket = { version = "0.5", features = ["json", "uuid"] }
serde = { version = "1", features = ["derive"] }
serde_derive = "1"
uuid = { version = "1", features = ["serde"] }

[dev-dependencies]
serde_json = "1"
