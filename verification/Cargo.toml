[package]
name = "event_router"
version = "0.1.0"
edition = "2021"
publish = false

[dependencies]
log = "0.4"
tracing = "0.1"
tracing-subscriber = "0.3"
serde_json = "1"
once_cell = "1"
parking_lot = "0.12"
