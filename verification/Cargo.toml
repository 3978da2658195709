[package]
name = "fireauth2"
version = "0.1.0"
edition = "2021"
publish = false

[dependencies]
oauth2 = "*"
url = "*"
urlencoding = "*"
chrono = "*"
serde = { version = "*", features = ["derive"] }
serde_json = "*"
reqwest = { version = "*", default-features = false, features = ["rustls-tls", "json"] }
actix-web = "*"
actix-cors = "*"
futures = "*"
log = "*"
env_logger = "*"
dotenvy = "*"
thiserror = "*"
base64 = "*"
google-oauth = "*"
firestore = "*"
actix-firebase-auth = "*"
