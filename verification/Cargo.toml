[package]
name = "edicast"
version = "0.1.0"
edition = "2021"
publish = false

[dependencies]
bytes = "1"
crossbeam = "0.8"
crossbeam-channel = "0.5"
futures = "0.3"
http-body-util = "0.1"
hyper = { version = "1", features = ["server", "http1"] }
lame = "0.1"
lewton = "0.10"
num-rational = "0.4"
ogg = "0.8"
percent-encoding = "2"
serde = { version = "1", features = ["derive"] }
slog = "2"
slog-async = "2"
slog-scope = "4"
slog-term = "2"
thiserror = "1"
tiny_http = "0.12"
tokio = { version = "1", features = ["rt", "net", "sync", "macros"] }
toml = "0.8"
uuid = { version = "1", features = ["v4"] }
