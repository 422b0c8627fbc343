[package]
name = "dicom_inspect"
version = "0.1.0"
edition = "2021"
publish = false

[dependencies]
dicom = { version = "*", default-features = false }
serde = { version = "1", features = ["derive"] }
thiserror = "1"
