[package]
name = "stc"
version = "0.1.0"
edition = "2021"
publish = false

[dependencies]
actix = "*"
chrono = "*"
clap = "*"
num_cpus = "*"
tokio = { version = "*", features = ["signal", "rt-multi-thread", "macros"] }
yahoo_finance_api = "*"
