[package]
name = "flood"
version = "0.1.0"
edition = "2021"
publish = false

[dependencies]
hdrhistogram = "7"
flate2 = "1"
base64 = "0.22"
rand = "0.8"
ctrlc = "3"
tokio = { version = "1", features = ["rt", "rt-multi-thread", "time", "macros"] }
futures = "0.3"
clap = { version = "4", features = ["derive"] }
serde = { version = "1", features = ["derive"] }
serde_json = "1"
chrono = { version = "0.4", features = ["serde"] }
reqwest = { version = "0.12", default-features = false, features = ["json"] }
statrs = "0.16"
cpu-time = "1"
num_cpus = "1"
console = "0.15"
plotters = { version = "0.3", default-features = false, features = ["svg_backend", "line_series"] }
try-lock = "0.2"
tokio-stream = "0.1"
status-line = "0.2"
hytra = "0.1"
rmp-serde = "1"
