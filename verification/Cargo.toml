[package]
name = "spotify_client"
version = "0.1.0"
edition = "2021"
publish = false

[dependencies]
base64 = "0.21"
oauth2 = { version = "4.4", default-features = false, features = ["reqwest", "rustls-tls"] }
reqwest = { version = "0.11", default-features = false, features = ["json", "rustls-tls"] }
serde = { version = "1", features = ["derive"] }
serde_json = "1"
