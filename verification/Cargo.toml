[package]
name = "hl7_send_receive"
version = "0.1.0"
edition = "2021"
publish = false

[dependencies]
hl7-parser = "=0.2.0"
chrono = "=0.4.45"
rand = "=0.8.8"
strip-ansi-escapes = "=0.2.1"
bytes = "*"
clap = { version = "4", features = ["derive", "cargo"] }
color-eyre = "*"
futures = "*"
hl7-mllp-codec = "*"
serde_json = "*"
syntect = "*"
termcolor = "*"
tokio = { version = "1", features = ["full"] }
tokio-util = { version = "*", features = ["codec"] }
