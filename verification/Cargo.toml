[package]
name = "url_shortener"
version = "0.1.0"
edition = "2021"
publish = false

[dependencies]
axum = "0.8"
color-eyre = "0.6"
rand = "0.9"
shuttle-axum = "*"
shuttle-runtime = "*"
tokio = { version = "1", features = ["macros", "rt-multi-thread"] }
url = "2"
