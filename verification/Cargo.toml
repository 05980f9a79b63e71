[package]
name = "otoroshictl"
version = "0.1.0"
edition = "2021"
publish = false

[dependencies]
base64 = "=0.22.1"
chrono = "=0.4.45"
confy = { version = "*", default-features = false, features = ["yaml_conf"] }
http = "=0.2.12"
hyper = { version = "=0.14.32", features = ["full"] }
hyper-rustls = { version = "=0.24.2", features = ["http2"] }
jsonwebtoken = "=9.3.1"
log = "=0.4.34"
moka = { version = "=0.12.16", features = ["sync"] }
rand = "=0.9.5"
rustls = "=0.21.12"
rustls-pemfile = "=1.0.4"
serde = { version = "=1.0.229", features = ["derive"] }
serde_json = "=1.0.154"
serde_yaml = "=0.9.34"
tokio = { version = "=1.54.1", features = ["full"] }
url = "=2.5.8"
webpki-roots = "=0.25.4"
