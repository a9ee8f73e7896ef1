[package]
name = "zingo_proxyd"
version = "0.1.0"
edition = "2021"
publish = false

[dependencies]
http = "0.2"
hyper = { version = "0.14", features = ["client", "http2", "tcp"] }
tonic = "0.10"
tower = { version = "0.4", features = ["util"] }
http-body = "0.4"
prost = "0.12"
tokio = { version = "1", features = ["rt-multi-thread", "time", "macros", "sync", "net"] }
tokio-rustls = "0.24"
hyper-rustls = { version = "0.24", features = ["http2"] }
webpki-roots = "0.25"
