[package]
name = "holo_auth"
version = "0.1.0"
edition = "2021"
publish = false

[dependencies]
base36 = "*"
base64 = "=0.13.1"
ed25519-dalek = "=1.0.1"
holo_hash = { version = "=0.7.0", features = ["hashing", "encoding"] }
reqwest = { version = "=0.13.5", default-features = false, features = ["json"] }
serde = { version = "=1.0.228", features = ["derive"] }
serde_json = "=1.0.151"
tokio = { version = "=1.53.2", features = ["macros", "rt-multi-thread", "time"] }
uuid = { version = "=1.27.0", features = ["serde"] }
zerotier-api = "=0.1.1"
