[package]
name = "hivemind"
version = "0.1.0"
edition = "2021"
publish = false

[dependencies]
chrono = "*"
serde = { version = "*", features = ["derive"] }
toml = "*"
tokio = { version = "*", features = ["full"] }
twitch-irc = "*"
reqwest = { version = "*", default-features = false, features = ["json", "rustls-tls"] }
inputbot = "*"
