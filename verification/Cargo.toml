[package]
name = "axp_pmic"
version = "0.1.0"
edition = "2021"
publish = false

[dependencies]
anyhow = "1"
axp192-dd = "*"
embassy-executor = { version = "*", features = ["arch-std", "executor-thread"] }
embassy-time = { version = "*", features = ["std"] }
embedded-hal = "1"
log = "0.4"
