[package]
name = "ark_server_manager"
version = "0.1.0"
edition = "2021"
publish = false

[dependencies]
encoding_rs = "=0.8.44"
chrono = { version = "=0.4.45", features = ["serde"] }
serde = { version = "=1.0.229", features = ["derive"] }
serde_json = "=1.0.154"
dirs = "=7.0.0"
regex = "=1.13.1"
configparser = "=3.3.0"
zip = { version = "=9.2.2", default-features = false, features = ["deflate"] }
flate2 = "=1.1.10"
tar = "=0.4.46"
sysinfo = "=0.40.1"
tokio = { version = "=1.54.1", features = ["full"] }
rcon = { version = "=0.6.0", features = ["rt-tokio"] }
reqwest = { version = "*", default-features = false, features = ["blocking"] }
