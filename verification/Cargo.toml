[package]
name = "sys_status_applet"
version = "0.1.0"
edition = "2021"
publish = false

[dependencies]
sysinfo = "0.30"
chrono = "0.4"
plotters = { version = "0.3", default-features = false, features = ["svg_backend", "area_series"] }
serde = { version = "1", features = ["derive"] }
