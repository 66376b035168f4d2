[package]
name = "tilt_ingest"
version = "0.1.0"
edition = "2021"
publish = false

[dependencies]
btleplug = "*"
chrono = { version = "0.4", default-features = false, features = ["clock"] }
futures = "0.3"
influxdb = { version = "*", features = ["derive"] }
tokio = { version = "1", features = ["macros", "rt-multi-thread"] }
