[package]
name = "meteo_link"
version = "0.1.0"
edition = "2021"
publish = false

[dependencies]
trouble-host = "*"
serde = { version = "1", default-features = false, features = ["derive"] }
serde_json = { version = "1", default-features = false, features = ["alloc"] }
embassy-executor = "*"
embassy-sync = "*"
embassy-time = "*"
embassy-futures = "*"
embedded-io-async = "*"
defmt = "*"
heapless = "*"
esp-hal = "*"
esp-radio = "*"
esp-rtos = "*"
esp-alloc = "*"
esp-backtrace = "*"
esp-println = "*"
esp-bootloader-esp-idf = "*"
