[package]
name = "p2p_vpn"
version = "0.1.0"
edition = "2021"
publish = false

[dependencies]
anyhow = "1"
backoff = "0.4"
buf-list = "*"
bytes = "1"
dashmap = "*"
etherparse = "*"
futures-util = { version = "0.3", default-features = false, features = ["std"] }
ipnet = "2"
iroh-base = { version = "*", features = ["key"] }
libc = "0.2"
metrics = "*"
metrics-exporter-prometheus = { version = "*", default-features = false, features = ["http-listener"] }
net-route = "*"
nix = { version = "*", features = ["ioctl"] }
pretty-hex = "*"
prost = "*"
rtnetlink = "*"
thin-status = "*"
tokio = { version = "1", features = ["full"] }
tokio-uring = "*"
tokio-util = "*"
tracing = "0.1"
tracing-subscriber = { version = "0.3", features = ["env-filter"] }
tun-rs = { version = "*", features = ["async"] }
