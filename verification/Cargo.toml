[package]
name = "keysas"
version = "0.1.0"
edition = "2021"
publish = false

[dependencies]
anyhow = "1"
base64 = "=0.21.7"
clap = "4"
crossbeam-utils = "0.8"
diacritics = "=0.2.2"
ed25519-dalek = "=1.0.1"
nix = { version = "*", features = ["mount"] }
pkcs8 = { version = "=0.10.2", features = ["encryption", "alloc"] }
pqcrypto-dilithium = "=0.5.0"
pqcrypto-traits = "=0.3.5"
rand = "=0.7.3"
serde = { version = "1", features = ["derive"] }
serde_json = "1"
sha2 = "=0.10.9"
sqlite = "=0.37.3"
tempfile = "3"
tungstenite = "*"
walkdir = "2"
x509-cert = "=0.2.5"
