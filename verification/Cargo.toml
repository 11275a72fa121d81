[package]
name = "burnin"
version = "0.1.0"
edition = "2021"
publish = false

[dependencies]
anyhow = "1"
bytesize = "1"
chrono = "0.4"
clap = { version = "4", features = ["derive"] }
colored = "2"
csv = "1"
ctrlc = "3"
humantime = "2"
log = "0.4"
num_cpus = "1"
rand = "0.8"
rayon = "1"
serde = { version = "1", features = ["derive"] }
serde_json = "1"
simple_logger = "4"
sysinfo = "0.30"
thiserror = "1"
toml = "0.8"
