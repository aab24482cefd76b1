[package]
name = "limiter"
version = "0.1.0"
edition = "2021"
publish = false

[dependencies]
arrayvec = "=0.5.2"
cortex-m = "=0.7.7"
cortex-m-rtic = "=1.1.4"
embedded-graphics = "=0.7.1"
embedded-hal = "=1.0.0-alpha.8"
embedded-text = "=0.5.0"
micromath = "=2.1.0"
panic-halt = "=0.2.0"
ssmarshal = "=1.0.0"
systick-monotonic = "=1.0.1"
wio_terminal = "=0.7.3"
