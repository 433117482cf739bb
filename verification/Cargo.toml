[package]
name = "kitsune_transport"
version = "0.1.0"
edition = "2021"
publish = false

[dependencies]
blake2b_simd = "=1.0.5"
derive_more = { version = "=2.1.1", features = ["display", "from", "into"] }
fixt = "=0.7.1"
futures = "=0.3.34"
ghost_actor = "=0.2.1"
holo_hash = { version = "=0.7.1", features = ["fixturators"] }
rand = "=0.8.8"
sbd-server = { version = "*", default-features = false }
serde = { version = "1", features = ["derive"] }
thiserror = "=1.0.69"
tokio = { version = "=1.54.1", features = ["rt"] }
url2 = "=0.0.6"
