[package]
name = "genesis_composer"
version = "0.1.0"
edition = "2021"
publish = false

[dependencies]
sp-core = "=43.0.0"
sp-crypto-hashing = "=0.1.0"
libsecp256k1 = "=0.7.2"
rand = "=0.8.8"
serde_json = { version = "=1.0.151", features = ["arbitrary_precision"] }
