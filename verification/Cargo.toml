[package]
name = "locatorr"
version = "0.1.0"
edition = "2021"
publish = false

[dependencies]
aes-gcm = "*"
base64 = "*"
hkdf = "*"
ml-dsa = "*"
ml-kem = "*"
rand = "*"
reqwest = { version = "*", default-features = false, features = ["json"] }
rusqlite = { version = "*", features = ["bundled"] }
serde = { version = "1", features = ["derive"] }
serde_json = "1"
sha2 = "*"
tokio = { version = "1", features = ["time"] }
x25519-dalek = { version = "*", features = ["static_secrets"] }
