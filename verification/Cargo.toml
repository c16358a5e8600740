[package]
name = "akp03"
version = "0.1.0"
edition = "2021"
publish = false

[dependencies]
mirajazz = "0.16"
openaction = "*"
tokio = { version = "1", features = ["rt", "rt-multi-thread", "macros", "time", "sync"] }
tokio-util = { version = "0.7", features = ["rt"] }
futures-lite = "2"
log = "0.4"
