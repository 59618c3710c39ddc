[package]
name = "esp32-ws2812b"
version = "0.1.0"
edition = "2021"
publish = false

[dependencies]
esp-hal = { version = "=1.0.0-beta.1", features = ["esp32s3", "unstable"] }
smart-leds = "=0.4.0"
esp-println = { version = "=0.14.0", features = ["esp32s3", "log-04"] }
esp-backtrace = { version = "=0.16.0", features = ["esp32s3", "panic-handler", "println"] }
esp-bootloader-esp-idf = "=0.1.0"
log = "=0.4.34"
