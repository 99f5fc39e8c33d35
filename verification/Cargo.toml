[package]
name = "tire_pressure_monitoring_system"
version = "0.1.0"
edition = "2021"
publish = false

[dependencies]
rand = "*"
