[package]
name = "aprs_telemetry"
version = "0.1.0"
edition = "2021"
publish = false

[dependencies]
modular-bitfield = "0.11"
serde = { version = "1", features = ["derive"] }
ublox = "0.4"
