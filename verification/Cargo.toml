[package]
name = "develbot"
version = "0.1.0"
edition = "2021"
publish = false

[dependencies]
anyhow = "=1.0.104"
chrono = "=0.4.45"
clap = "=2.34.0"
log = "=0.4.34"
log4rs = "=1.4.0"
reqwest = "=0.11.27"
serde = { version = "=1.0.229", features = ["derive"] }
sqlx = { version = "=0.5.13", default-features = false, features = ["runtime-tokio-native-tls", "postgres", "chrono", "macros"] }
syn = { version = "=1.0.109", features = ["full"] }
tiny_http = "=0.8.2"
tokio = { version = "=1.54.1", features = ["full"] }
toml = "=0.5.11"
twitch_api2 = { version = "=0.5.0", features = ["helix", "client", "reqwest_client"] }
twitch-irc = { version = "=2.2.0", features = ["transport-wss"] }
twitch_oauth2 = { version = "=0.5.2", features = ["reqwest_client"] }
url = "=2.5.8"
