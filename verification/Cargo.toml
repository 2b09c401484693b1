[package]
name = "buckshot"
version = "0.1.0"
edition = "2021"
publish = false

[dependencies]
anyhow = "1"
chrono = "0.4"
console = "0.15"
dialoguer = "0.10"
native-tls = "0.2"
regex = "1"
reqwest = { version = "0.11", features = ["blocking", "json", "multipart", "cookies"] }
serde = { version = "1", features = ["derive"] }
serde_json = "1"
structopt = "0.3"
tokio = { version = "1", features = ["full"] }
tokio-native-tls = "0.3"
toml = "0.5"
