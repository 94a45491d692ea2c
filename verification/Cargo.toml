[package]
name = "tus_rs"
version = "0.1.0"
edition = "2021"
publish = false

[dependencies]
base64 = "*"
url = "*"
reqwest = { version = "*", features = ["blocking"] }
serde = { version = "*", features = ["derive"] }
serde_json = "*"
thiserror = "*"
displaydoc = "*"
