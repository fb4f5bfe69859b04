[package]
name = "cargo-wasm"
version = "0.1.0"
edition = "2021"
publish = false

[dependencies]
cargo_metadata = "0.18"
env_logger = "0.11"
flate2 = "1"
log = "0.4"
reqwest = { version = "0.12", default-features = false, features = ["blocking", "rustls-tls"] }
structopt = "0.3"
tar = "0.4"
