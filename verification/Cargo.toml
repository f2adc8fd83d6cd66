[package]
name = "tls_bootstrap"
version = "0.1.0"
edition = "2021"
publish = false

[dependencies]
rustls = "0.20"
rustls-pemfile = "1"
actix-web = { version = "4", features = ["rustls"] }
actix-files = "0.6"
anyhow = "1"
log = "0.4"
fern = { version = "0.6", features = ["colored"] }
chrono = "0.4"
