[package]
name = "ajour"
version = "1.3.0"
edition = "2021"
publish = false

[dependencies]
async-std = "=1.13.2"
iced_native = "=0.4.0"
isahc = "=1.8.3"
log = "=0.4.35"
native-dialog = "0.4"
opener = "=0.5.2"
serde = { version = "=1.0.229", features = ["derive"] }
