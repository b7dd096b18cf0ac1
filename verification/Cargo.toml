[package]
name = "tira"
version = "0.1.0"
edition = "2021"
publish = false

[dependencies]
anyhow = "=1.0.104"
aws-config = { version = "=1.13.0", default-features = false, features = ["behavior-version-latest", "rt-tokio"] }
aws-sdk-s3 = { version = "=1.155.0", default-features = false, features = ["default-https-client", "http-1x", "rt-tokio"] }
axum = { version = "=0.7.9", features = ["multipart"] }
axum-extra = { version = "=0.9.6", features = ["cookie"] }
chrono = { version = "=0.4.45", default-features = false, features = ["clock", "serde", "std"] }
clap = { version = "=4.6.7", features = ["derive", "env"] }
cookie = "=0.18.2"
ctrlc = "=3.5.2"
dotenv = "=0.15.0"
http-body-util = "=0.1.5"
lettre = { version = "=0.11.23", default-features = false, features = ["builder", "smtp-transport", "native-tls"] }
log = "=0.4.34"
regex = "=1.13.1"
rust-crypto = "=0.2.36"
serde = { version = "=1.0.229", features = ["derive"] }
simple_logger = { version = "=4.3.3", default-features = false }
sqlx = { version = "=0.7.4", default-features = false, features = ["runtime-tokio", "postgres", "chrono"] }
tokio = { version = "=1.54.1", features = ["rt-multi-thread", "macros", "net"] }
tower-http = { version = "=0.5.2", features = ["cors"] }
uuid = { version = "=1.29.0", features = ["v4"] }
