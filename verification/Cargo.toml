[package]
name = "aa_bridge"
version = "0.1.0"
edition = "2021"
publish = false

[dependencies]
bluer = { version = "*", features = ["bluetoothd", "rfcomm"] }
bytesize = "*"
futures = "*"
humantime = "*"
log = "*"
simplelog = "*"
tokio = { version = "*", features = ["full"] }
tokio-uring = "*"
