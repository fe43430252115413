[package]
name = "veth_pair"
version = "0.1.0"
edition = "2021"
publish = false

[dependencies]
anyhow = "1"
futures = "0.3"
mac_address = "*"
rtnetlink = "*"
tokio = { version = "1", features = ["rt-multi-thread"] }
