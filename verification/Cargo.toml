[package]
name = "ssh_mux"
version = "0.1.0"
edition = "2021"
publish = false

[dependencies]
bytes = "*"
tokio = { version = "*", features = ["sync", "rt-multi-thread"] }
