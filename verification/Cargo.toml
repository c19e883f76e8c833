[package]
name = "ashpd"
version = "0.1.0"
edition = "2021"
publish = false

[dependencies]
zbus = "5"
url = "2"
rand = "0.8"
serde = { version = "1", features = ["derive"] }
serde_repr = "0.1"
enumflags2 = { version = "0.7", features = ["serde"] }
futures-util = "0.3"
