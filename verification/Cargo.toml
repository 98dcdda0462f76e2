[package]
name = "sat_session"
version = "0.1.0"
edition = "2021"
publish = false

[dependencies]
anyhow = "*"
clap = { version = "*", features = ["derive"] }
cpu-time = "*"
ctrlc = "*"
human_bytes = "*"
mimalloc = "*"
reqwest = { version = "*", features = ["blocking"] }
rlimit = "*"
rssat = "*"
satgalaxy = "*"
sysinfo = "*"
url = "*"
validator = { version = "*", features = ["derive"] }
