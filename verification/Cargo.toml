[package]
name = "moonshine"
version = "0.1.0"
edition = "2021"
publish = false

[dependencies]
aes = "=0.9.4"
aes-gcm = "=0.10.3"
aws-lc-rs = "=1.19.0"
cbc = "=0.2.1"
dirs = "=7.0.0"
hex = "=0.4.3"
http-body-util = "=0.1.5"
hyper = { version = "=1.12.0", features = ["server", "http1"] }
image = { version = "=0.25.10", default-features = false, features = ["jpeg", "png"] }
inout = { version = "=0.2.5", features = ["block-padding"] }
libc = "=0.2.191"
mdns-sd = "=0.21.7"
network-interface = "=2.0.5"
rcgen = "=0.14.10"
rsa = { version = "=0.9.10", features = ["getrandom"] }
rusqlite = { version = "=0.41.1", features = ["bundled"] }
rustls = "=0.23.46"
rustls-pemfile = "=2.2.0"
serde = { version = "=1.0.229", features = ["derive"] }
serde_json = "=1.0.154"
sha2 = "=0.10.9"
shellexpand = { version = "=3.1.2", features = ["full"] }
steamlocate = "=2.1.1"
tokio = { version = "=1.54.1", features = ["rt", "net", "sync", "time", "macros"] }
tokio-rustls = "0.26"
toml = "=1.1.8"
tracing = "=0.1.44"
url = "=2.5.8"
which = "=8.0.6"
x509-parser = "=0.18.1"
