[package]
name = "archive_deploy"
version = "0.1.0"
edition = "2021"
publish = false

[dependencies]
zip = "*"
chrono = "*"
clap = { version = "*", features = ["derive"] }
sevenz-rust = "*"
unrar = "*"
winapi = { version = "*", features = ["fileapi"] }
