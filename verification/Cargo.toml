[package]
name = "mailwatch"
version = "0.1.0"
edition = "2021"
publish = false

[dependencies]
chrono = "*"
html2text = "*"
imap = "*"
mailparse = "*"
native-tls = "*"
reqwest = { version = "*", default-features = false, features = ["blocking", "json", "native-tls"] }
serde = { version = "*", features = ["derive"] }
serde_json = "*"
toml = "*"
