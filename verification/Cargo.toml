[package]
name = "mc_chat"
version = "0.1.0"
edition = "2021"
publish = false

[dependencies]
serde = { version = "=1.0.229", features = ["derive"] }
serde_json = { version = "=1.0.154", features = ["preserve_order"] }
fastsnbt = "=0.3.0"
uuid = { version = "=1.29.0", features = ["serde"] }
erased-serde = "=0.4.10"
indexmap = { version = "=2.14.2", features = ["serde"] }
palette = "=0.7.7"
syn = { version = "=2.0.119", features = ["full"] }
quote = "=1.0.47"
proc-macro2 = "=1.0.107"
proc-macro-error = "=1.0.4"
