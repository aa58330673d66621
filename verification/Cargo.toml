[package]
name = "ssh_session"
version = "0.1.0"
edition = "2021"
publish = false

[dependencies]
russh = "0.45"
russh-keys = "0.45"
russh-sftp = "2.0"
tokio = { version = "1", features = ["full"] }
tokio-socks = "0.5"
async-http-proxy = { version = "1.2", features = ["runtime-tokio"] }
async-trait = "0.1"
futures = "0.3"
delegate = "0.12"
thiserror = "1"
napi = { version = "2", default-features = false, features = ["napi4", "tokio_rt"] }
napi-derive = "2"
