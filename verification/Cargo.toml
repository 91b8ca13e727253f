[package]
name = "ilet_sync"
version = "0.1.0"
edition = "2021"
publish = false

[dependencies]
anyhow = "1"
base64 = "0.22"
chrono = { version = "0.4", features = ["serde"] }
rayon = "1"
reqwest = { version = "0.12", features = ["blocking", "json"] }
rust_decimal = { version = "1", features = ["serde-with-arbitrary-precision"] }
serde = { version = "1", features = ["derive"] }
serde_json = { version = "1", features = ["arbitrary_precision"] }
serde_with = { version = "3", features = ["chrono_0_4"] }
uuid = { version = "1", features = ["v4"] }
