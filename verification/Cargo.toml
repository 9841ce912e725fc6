[package]
name = "apache_echarts_wrapper"
version = "0.1.0"
edition = "2021"
publish = false

[dependencies]
uuid = { version = "=1.27.0", features = ["v4"] }
chrono = "=0.4.45"
time = "=0.3.55"
