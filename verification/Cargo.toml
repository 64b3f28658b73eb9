[package]
name = "minato"
version = "0.1.0"
edition = "2021"
publish = false

[dependencies]
rand = "0.7"
regex = "1"
serde_json = "1"
serde = { version = "1", features = ["derive"] }
nix = "0.26"
prctl = "1"
reqwest = { version = "0.11", default-features = false, features = ["blocking", "rustls-tls"] }
flate2 = "1"
tar = "0.4"
structopt = "0.3"
clap = "2"
log = "0.4"
env_logger = "0.10"
