[package]
name = "sigrake"
version = "0.1.0"
edition = "2021"
publish = false

[dependencies]
heck = "0.4"
hex = "0.4"
rand = "0.8"
tiny-keccak = { version = "2", features = ["keccak"] }
clap = { version = "4", features = ["derive"] }
rayon = "1"
reqwest = { version = "0.11", default-features = false, features = ["blocking", "json", "rustls-tls"] }
serde = { version = "1", features = ["derive"] }
