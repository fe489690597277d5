[package]
name = "helium_wallet"
version = "0.1.0"
edition = "2021"
publish = false

[dependencies]
base64 = "=0.12.3"
bs58 = { version = "=0.3.1", features = ["check"] }
ed25519-dalek = "=2.2.0"
helium-api = "=3.3.1"
hex = "=0.4.3"
prettytable-rs = "=0.10.0"
rand = "=0.8.8"
reqwest = { version = "=0.12.28", default-features = false, features = ["rustls-tls"] }
serde_json = "=1.0.154"
structopt = "=0.3.26"
tokio = { version = "=1.54.1", features = ["rt"] }
