[package]
name = "mdns"
version = "3.0.0"
edition = "2021"
publish = false

[dependencies]
async-std = { version = "1", features = ["unstable"] }
async-stream = "0.3"
dns-parser = "0.8"
err-derive = "0.3"
futures-core = "0.3"
futures-util = "0.3"
log = "0.4"
mio = "0.6"
net2 = "0.2"
tokio = { version = "1", default-features = false, features = ["net", "rt", "time"] }
tokio-stream = { version = "0.1", features = ["time"] }
