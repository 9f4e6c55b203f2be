[package]
name = "bluescale"
version = "0.1.0"
edition = "2021"
publish = false

[dependencies]
beep = "*"
bluer = { version = "*", features = ["full"] }
chrono = "*"
clap = { version = "3", features = ["derive"] }
futures = "*"
postgres = "*"
rust-ini = "*"
simplelog = "*"
tokio = { version = "*", features = ["full"] }
uuid = "*"
