[package]
name = "poem"
version = "0.1.0"
edition = "2021"
publish = false

[dependencies]
rustls-pemfile = "=2.2.0"
tokio-rustls = "=0.26.6"
rustls = { version = "=0.23.46", default-features = false }
rustls-pki-types = "=1.15.1"
aws-lc-rs = { version = "=1.19.0", default-features = false }
quinn = "=0.11.12"
quinn-proto = { version = "=0.11.19", default-features = false }
h3 = "=0.0.8"
h3-quinn = "=0.0.10"
tokio = { version = "=1.54.1", features = ["full"] }
tokio-util = "=0.7.20"
bytes = "=1.12.1"
futures-util = "=0.3.34"
http = "=1.5.0"
tracing = "=0.1.44"
syn = { version = "=2.0.119", features = ["full"] }
quote = "=1.0.47"
proc-macro2 = "=1.0.107"
