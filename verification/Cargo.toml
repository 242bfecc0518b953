[package]
name = "mcdevkit"
version = "0.1.0"
edition = "2021"
publish = false

[dependencies]
clap = { version = "=4.6.7", features = ["derive"] }
futures-util = "=0.3.34"
indicatif = "=0.18.6"
libtermcolor = "=1.1.0"
rand = "=0.10.3"
reqwest = { version = "=0.13.5", default-features = false, features = ["json", "stream"] }
serde = { version = "=1.0.229", features = ["derive"] }
tempdir = "=0.3.7"
tokio = { version = "=1.53.2", features = ["full"] }
