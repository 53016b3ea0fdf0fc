[package]
name = "crawley"
version = "0.1.0"
edition = "2021"
publish = false

[dependencies]
flurry = "*"
hyper = { version = "0.14", features = ["client", "http1", "tcp"] }
hyper-tls = "0.5"
url = "2"
select = "*"
tokio = { version = "1", features = ["rt-multi-thread", "sync", "macros"] }
clap = "4"
pretty_env_logger = "*"
