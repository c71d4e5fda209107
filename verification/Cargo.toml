[package]
name = "tft_driver"
version = "0.1.0"
edition = "2021"
publish = false

[dependencies]
display-interface = "0.5"
display-interface-spi = "0.5"
embedded-hal = "1"
esp-idf-hal = "0.44"
esp-idf-svc = "0.49"
log = "0.4"
