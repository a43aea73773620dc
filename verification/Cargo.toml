[package]
name = "pam_exec"
version = "0.1.0"
edition = "2021"
publish = false

[dependencies]
base64 = "*"
openssl = "*"
serde = { version = "*", features = ["derive"] }
serde_json = "*"
tokio = { version = "*", features = ["rt", "macros", "net", "time", "io-util"] }
