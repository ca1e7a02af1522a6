[package]
name = "anonymizer"
version = "0.1.0"
edition = "2021"
publish = false

[dependencies]
dicom-object = "0.5"
dicom-core = "0.5"
chrono = "0.4"
clap = "3"
yaml-rust = "0.4"
anyhow = "1"
serde = { version = "1", features = ["derive"] }
