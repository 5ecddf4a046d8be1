[package]
name = "messenger"
version = "0.1.0"
edition = "2021"
publish = false

[dependencies]
aes = "0.8"
base64 = "0.21"
rand = "0.8"
serde = "1"
serde_derive = "1"
serde_json = "1"
chrono = { version = "0.4", features = ["serde"] }
actix-web = { version = "4", default-features = false, features = ["macros", "cookies"] }
actix-session = { version = "0.8", features = ["cookie-session"] }
actix-multipart = "0.6"
argon2 = "0.5"
password-hash = { version = "0.5", features = ["getrandom"] }
rsa = "0.9"
diesel = { version = "2", features = ["mysql", "r2d2", "chrono"] }
dialoguer = "0.11"
dotenvy = "0.15"
env_logger = "0.10"
once_cell = "1"
tempfile = "3"
tokio = { version = "1", features = ["fs", "io-util"] }
futures = "0.3"
async-stream = "0.3"
