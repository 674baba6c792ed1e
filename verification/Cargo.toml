[package]
name = "s3po"
version = "0.1.1"
edition = "2021"
publish = false

[dependencies]
bs58 = "=0.5.1"
chrono = "=0.4.45"
colored = "=2.2.0"
confy = "=0.6.1"
ecies = { version = "=0.2.11", default-features = false, features = ["xchacha20"] }
libsecp256k1 = "=0.7.2"
minio = "=0.1.0"
mnemonic = "=1.1.1"
rand = "=0.8.8"
serde = "=1.0.229"
serde_derive = "=1.0.229"
tokio = { version = "=1.54.1", features = ["macros", "rt-multi-thread"] }
