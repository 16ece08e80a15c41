[package]
name = "slice_volume"
version = "0.1.0"
edition = "2021"
publish = false

[dependencies]
anyhow = "1"
dicom = { version = "0.8", default-features = false }
