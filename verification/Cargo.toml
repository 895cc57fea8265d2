[package]
name = "persona-message"
version = "0.1.0"
edition = "2021"
publish = false

[dependencies]
kameo = "=0.20.0"
libc = "=0.2.191"
thiserror = "=2.0.21"
tokio = { version = "=1.54.1", features = ["rt-multi-thread", "fs"] }
