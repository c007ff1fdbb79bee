[package]
name = "service_supervisor"
version = "0.1.0"
edition = "2021"
publish = false

[dependencies]
time = "0.1"
num_cpus = "1"
url = "1"
rand = "0.8"
toml = "0.5"
serde = { version = "1", features = ["derive"] }
glob = "0.3"
notify = "4"
libc = "0.2"
protobuf = "2"
clap = "2"
log = "0.4"
ansi_term = "0.12"
