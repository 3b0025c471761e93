[package]
name = "flowsurface"
version = "0.1.0"
edition = "2021"
publish = false

[dependencies]
serde = { version = "*", features = ["derive"] }
serde_json = "*"
tokio = { version = "*", features = ["full"] }
reqwest = { version = "*", default-features = false, features = ["json", "rustls-tls"] }
fastwebsockets = { version = "*", features = ["upgrade"] }
hyper = { version = "*", features = ["full"] }
hyper-util = { version = "*", features = ["full"] }
http-body-util = "*"
bytes = "*"
tokio-rustls = "*"
webpki-roots = "*"
chrono = "*"
csv = "*"
zip = { version = "*", default-features = false, features = ["deflate"] }
