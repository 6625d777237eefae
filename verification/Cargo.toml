[package]
name = "drag_and_crop"
version = "0.1.0"
edition = "2021"
publish = false

[dependencies]
image = "*"
urlencoding = "*"
serde = { version = "*", features = ["derive"] }
serde_json = "*"
uuid = { version = "*", features = ["v4"] }
reqwest = { version = "*", default-features = false, features = ["rustls-tls"] }
yup-oauth2 = "*"
tokio = { version = "*", features = ["rt-multi-thread", "macros"] }
