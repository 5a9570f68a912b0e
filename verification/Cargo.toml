[package]
name = "matrix_session"
version = "0.1.0"
edition = "2021"
publish = false

[dependencies]
matrix-sdk = { version = "0.6", default-features = false, features = ["e2e-encryption", "sled", "markdown", "rustls-tls"] }
mime = "0.3"
mime_guess = "2"
tracing = "0.1"
url = "2"
