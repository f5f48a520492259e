[package]
name = "player_relay"
version = "0.1.0"
edition = "2021"
publish = false

[dependencies]
clap = "2"
log = "0.4"
mpris = "2"
pretty_env_logger = "0.4"
rand = "0.8"
rumqttc = { version = "*", default-features = false }
users = "0.11"
