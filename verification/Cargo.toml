[package]
name = "ximea_camera"
version = "0.1.0"
edition = "2021"
publish = false

[dependencies]
serde = { version = "*", features = ["derive"] }
serde_json = "*"
log = "*"
env_logger = "*"
clap = { version = "*", features = ["derive"] }
crossbeam = "*"
rayon = "*"
image = "*"
ctrlc = "*"
chrono = "*"
zmq = "*"
xiapi = "*"
tokio = { version = "*", features = ["macros", "rt-multi-thread"] }
futures-util = "*"
reqwest-eventsource = "*"
