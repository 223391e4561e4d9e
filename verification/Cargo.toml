[package]
name = "rquest"
version = "0.1.0"
edition = "2021"
publish = false

[dependencies]
antidote = "1"
boring = "4"
http = "0.2"
hyper = { version = "0.14", default-features = false, features = ["client", "http1"] }
tokio = { version = "1", default-features = false }
tokio-boring = "4"
tower-layer = "0.3"
