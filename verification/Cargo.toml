[package]
name = "ssimulacra2_rs"
version = "0.1.0"
edition = "2021"
publish = false

[dependencies]
clap = { version = "*", features = ["derive"] }
futures = "*"
image = "*"
num_cpus = "*"
progress_bar = "*"
ssimulacra2 = "*"
tokio = { version = "*", features = ["rt-multi-thread"] }
yuvxyb = "*"
