[package]
name = "http_forward"
version = "0.1.0"
edition = "2021"
publish = false

[dependencies]
base64 = "*"
futures-util = "*"
httpdate = "*"
mechanics-config = "*"
mechanics-http-client = "*"
philharmonic-connector-impl-api = "*"
rand = "0.9"
serde = { version = "*", features = ["derive"] }
serde_json = "*"
thiserror = "*"
tokio = { version = "*", features = ["time", "rt", "macros"] }

[dev-dependencies]
philharmonic-connector-common = "*"
