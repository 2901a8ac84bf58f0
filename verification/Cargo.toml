[package]
name = "ws2812_async"
version = "0.1.0"
edition = "2021"
publish = false

[dependencies]
embassy-futures = "0.1"
embedded-hal-async = "1.0"
smart-leds = "0.3"
