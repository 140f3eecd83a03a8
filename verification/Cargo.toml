[package]
name = "edgars"
version = "0.1.0"
edition = "2021"
publish = false

[dependencies]
aho-corasick = "1"
async-compression = { version = "0.4", features = ["tokio", "gzip", "zlib"] }
bytes = "1"
chrono = { version = "0.4", default-features = false, features = ["std"] }
futures = "0.3"
http-body-util = "0.1"
hyper = { version = "1", features = ["client", "http1", "http2"] }
hyper-tls = "0.6"
hyper-util = { version = "0.1", features = ["client-legacy", "http1", "http2", "tokio"] }
memchr = "2"
moka = { version = "0.12", features = ["sync"] }
regex = "1"
rusqlite = { version = "*", features = ["bundled"] }
scraper = "*"
serde = { version = "1", features = ["derive"] }
serde_json = "1"
thiserror = "1"
tokio = { version = "1", features = ["io-util", "time", "sync", "rt", "macros"] }
tracing = "0.1"
url = "2"
