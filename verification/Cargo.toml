[package]
name = "dashboard"
version = "0.1.0"
edition = "2021"
publish = false

[dependencies]
bincode = { version = "=2.0.1", default-features = false, features = ["derive"] }
embedded-can = "=0.4.1"
defmt = "1.0"
defmt-rtt = "1.0"
panic-probe = { version = "1.0", features = ["print-defmt"] }
embassy-executor = { version = "0.9", features = ["arch-std", "executor-thread", "defmt"] }
embassy-stm32 = { version = "0.4.0", features = ["stm32g491ke", "defmt", "time-driver-any", "exti", "memory-x", "unstable-pac"] }
embassy-sync = { version = "0.7", features = ["defmt"] }
embassy-time = { version = "0.5", features = ["defmt"] }
embedded-graphics = "0.8"
embedded-hal-bus = "0.3"
display-interface-spi = "0.5"
ili9488-rs = "0.1"
rgb-led-pwm-dma-maker = "*"
