[package]
name = "dehneevse_mqtt_bridge"
version = "0.1.0"
edition = "2021"
publish = false

[dependencies]
base64 = "0.13"
byteorder = "1"
clap = { version = "3.2", features = ["derive"] }
config = "0.13"
ctrlc = "3"
env_logger = "0.10"
log = "0.4"
paho-mqtt = "0.12"
serde = { version = "1", features = ["derive"] }
serde_json = "1"
tokio = { version = "1", features = ["full"] }
