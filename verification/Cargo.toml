[package]
name = "sunrise_lib"
version = "0.1.0"
edition = "2021"
publish = false

[dependencies]
embedded-hal = { version = "=0.2.7", features = ["unproven"] }
heapless = "=0.8.0"
linux-embedded-hal = { version = "0.3", default-features = false, features = ["gpio_sysfs"] }
