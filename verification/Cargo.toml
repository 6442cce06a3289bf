[package]
name = "lineproto"
version = "0.1.0"
edition = "2021"
publish = false

[dependencies]
futures = "0.1"
tokio = "0.1"
tokio-tls = "0.2"
native-tls = "0.2"
