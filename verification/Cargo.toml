[package]
name = "study_app"
version = "0.1.0"
edition = "2021"
publish = false

[dependencies]
font-loader = "*"
regex = "1"
reqwest = { version = "0.12", default-features = false, features = ["rustls-tls"] }
serde = { version = "1", features = ["derive"] }
serde_json = "1"
thiserror = "1"
winrt-notification = "0.5"
zip = "2"
