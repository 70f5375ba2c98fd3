[package]
name = "iana_ip_db"
version = "0.1.0"
edition = "2021"
publish = false

[dependencies]
getopts = "0.2"
hyper = { version = "0.14", features = ["client", "http1", "tcp"] }
hyper-tls = "0.5"
tokio = { version = "1", features = ["rt-multi-thread"] }
