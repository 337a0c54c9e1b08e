[package]
name = "flow_field"
version = "0.1.0"
edition = "2021"
publish = false

[dependencies]
rand = "=0.8.8"
hex = "=0.4.3"
noise = "=0.9.0"
glam = "=0.27.0"
log = "=0.4.34"
env_logger = "=0.11.11"
dotenv = "=0.15.0"
macroquad = { version = "0.4", default-features = false }
