[package]
name = "vocab_cards"
version = "0.1.0"
edition = "2021"
publish = false

[dependencies]
url = "2"
csv = "1"
eyre = "0.6"
quick-xml = { version = "0.22", features = ["serialize"] }
reqwest = { version = "0.11", default-features = false, features = ["blocking", "rustls-tls"] }
serde = { version = "1", features = ["derive"] }
