[package]
name = "asq"
version = "0.1.0"
edition = "2021"
publish = false

[dependencies]
urlencoding = "2"
anyhow = "1"
clap = { version = "4", features = ["derive"] }
clap_complete = "4"
dialoguer = { version = "*", features = ["fuzzy-select"] }
marcli = "*"
open = "5"
reqwest = { version = "0.12", default-features = false, features = ["blocking", "json", "socks", "rustls-tls"] }
serde = { version = "1", features = ["derive"] }
serde_json = "1"
