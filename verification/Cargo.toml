[package]
name = "openlimits"
version = "0.1.0"
edition = "2021"
publish = false

[dependencies]
rust_decimal = "=1.43.0"
chrono = "=0.4.45"
nash-protocol = "=0.2.0"
nash-native-client = "0.2"
async-trait = "=0.1.92"
tokio = { version = "1", features = ["time"] }
serde = { version = "=1.0.229", features = ["derive"] }
