[package]
name = "keylogger"
version = "0.1.0"
edition = "2021"
publish = false

[dependencies]
chrono = "*"
regex = "*"
google-calendar3 = "*"
yup-oauth2 = "*"
hyper = "*"
hyper-rustls = "*"
notify-rust = "*"
tokio = { version = "*", features = ["rt-multi-thread", "macros"] }
