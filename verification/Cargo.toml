[package]
name = "fritzbox_rest"
version = "0.1.0"
edition = "2021"
publish = false

[dependencies]
reqwest = { version = "0.12", default-features = false, features = ["blocking"] }
url = "2"
md5 = "0.7"
byteorder = "1"
chrono = "0.4"
clap = { version = "4", features = ["derive"] }
serde = "1"
serde_derive = "1"
serde-xml-rs = "0.6"
sunrise = "1"
timer = "0.2"
rust-ini = "0.18"
log = "0.4"
log4rs = "1"
anyhow = "1"
