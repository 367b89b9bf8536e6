[package]
name = "sendme"
version = "0.1.0"
edition = "2021"
publish = false

[dependencies]
anyhow = "1"
blake3 = "=1.8.7"
chacha20poly1305 = "=0.10.1"
distributed-topic-tracker = { version = "=0.3.5", default-features = false }
ed25519-dalek = "=3.0.0"
hkdf = "=0.12.4"
n0-future = "=0.3.2"
postcard = { version = "=1.1.3", features = ["use-std"] }
rand = "0.10"
serde_bytes = "=0.11.19"
sha2 = "=0.10.9"
spake2 = "=0.4.0"
tokio = { version = "1", features = ["macros", "rt", "sync", "time"] }
tracing = "0.1"
zeroize = "=1.9.1"
