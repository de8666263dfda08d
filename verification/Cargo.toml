[package]
name = "concentratord"
version = "0.1.0"
edition = "2021"
publish = false

[dependencies]
anyhow = "*"
chirpstack_api = { version = "*", default-features = false }
chrono = "*"
gpiocdev = "*"
hex = "*"
lazy_static = "*"
log = "*"
nmea = "*"
prost = "*"
prost-types = "*"
serde = { version = "*", features = ["derive"] }
serde_json = "*"
simple_logger = "*"
syslog = "*"
thiserror = "*"
ublox = "*"
zmq = "*"
