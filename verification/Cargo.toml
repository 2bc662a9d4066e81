[package]
name = "browser_shell"
version = "0.1.0"
edition = "2021"
publish = false

[dependencies]
serde_json = "*"
url = "*"
urlencoding = "*"
uuid = { version = "*", features = ["v4"] }
