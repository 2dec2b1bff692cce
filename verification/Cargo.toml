[package]
name = "vault"
version = "0.1.0"
edition = "2021"
publish = false

[dependencies]
aes-gcm = "=0.10.3"
chacha20poly1305 = "=0.10.1"
argon2 = { version = "=0.6.0", features = ["parallel"] }
sha2 = "=0.10.9"
rand = "=0.8.8"
uuid = { version = "=1.29.0", features = ["v4", "serde"] }
chrono = { version = "=0.4.45", features = ["serde"] }
unicode-normalization = "=0.1.26"
caseless = "=0.2.2"
zeroize = { version = "=1.9.1", features = ["derive"] }
serde = { version = "=1.0.229", features = ["derive"] }
serde_json = "=1.0.154"
bincode = "=1.3.3"
crossterm = "=0.28.1"
ratatui = "=0.29.0"
arboard = "=3.7.0"
directories = "=5.0.1"
anyhow = "=1.0.104"
tracing = "=0.1.44"
tracing-subscriber = "=0.3.23"
