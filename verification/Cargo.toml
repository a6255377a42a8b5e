[package]
name = "skysold"
version = "0.1.0"
edition = "2021"
publish = false

[dependencies]
base64 = "0.13"
flate2 = "1"
hematite-nbt = "0.5"
num-format = "0.4"
nustify = "*"
reqwest = { version = "0.11", features = ["json"] }
serde = { version = "1", features = ["derive"] }
structopt = "0.3"
thiserror = "1"
tokio = { version = "1", features = ["macros", "rt", "time"] }
uuid = { version = "0.8", features = ["serde", "v3"] }
