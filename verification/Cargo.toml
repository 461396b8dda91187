[package]
name = "stm32_shell"
version = "0.1.0"
edition = "2021"
publish = false

[dependencies]
cortex-m-rt = "=0.7.7"
defmt = "=0.3.101"
defmt-rtt = "=0.4.2"
embassy-executor = { version = "=0.7.0", features = ["executor-thread"] }
embassy-stm32 = { version = "=0.2.0", features = ["stm32f407vg", "unstable-pac", "memory-x", "time-driver-any", "exti"] }
embassy-sync = "=0.6.2"
embassy-time = { version = "=0.4.0", features = ["tick-hz-32_768"] }
heapless = "=0.8.0"
itoa = "=1.0.18"
panic-probe = { version = "=0.3.2", features = ["print-defmt"] }

[dev-dependencies]
critical-section = { version = "1", features = ["std"] }
