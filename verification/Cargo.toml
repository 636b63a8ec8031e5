[package]
name = "tls_api_rustls"
version = "0.1.0"
edition = "2021"
publish = false

[dependencies]
pem = "0.8"
rustls = { version = "0.19", features = ["dangerous_configuration"] }
webpki = "0.21"
webpki-roots = "0.21"
