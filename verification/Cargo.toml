[package]
name = "image_resizer"
version = "0.1.0"
edition = "2021"
publish = false

[dependencies]
image = "=0.25.10"
fast_image_resize = { version = "=6.1.0", features = ["image"] }
tokio = { version = "=1.54.1", features = ["full"] }
hyper = { version = "=1.12.0", features = ["http2", "server"] }
hyper-util = { version = "=0.1.21", features = ["tokio"] }
http-body-util = "=0.1.5"
reqwest = { version = "=0.12.28", default-features = false, features = ["rustls-tls", "http2"] }
rustls = { version = "=0.23.46", features = ["ring"] }
futures-util = "=0.3.34"
lazy_static = "=1.5.1"
tracing = "=0.1.44"
tracing-subscriber = { version = "=0.3.23", features = ["env-filter"] }
tracing-opentelemetry = "=0.23.0"
tracing-stackdriver = { version = "=0.10.0", features = ["opentelemetry"] }
opentelemetry = "=0.22.0"
opentelemetry_sdk = { version = "=0.22.1", features = ["rt-tokio"] }
opentelemetry-stackdriver = "=0.19.1"
