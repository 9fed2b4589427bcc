[package]
name = "burn_lora"
version = "0.1.0"
edition = "2021"
publish = false

[dependencies]
burn-std = { version = "=0.21.0", default-features = false, features = ["std"] }
burn-tensor = { version = "=0.21.0", default-features = false, features = ["std"] }

[dev-dependencies]
burn-autodiff = { version = "=0.21.0", default-features = false, features = ["std"] }
burn-flex = { version = "=0.21.0", default-features = false, features = ["std"] }
