[package]
name = "md5sum"
version = "0.1.0"
edition = "2021"
publish = false

[dependencies]
md-5 = "0.10"
anyhow = "1"
clap = { version = "4", features = ["derive"] }
