[package]
name = "open_sight"
version = "0.1.0"
edition = "2021"
publish = false

[dependencies]
chrono = "=0.4.45"
clap = { version = "=4.6.7", features = ["derive"] }
csv = "=1.4.0"
dicom-dictionary-std = "=0.10.0"
dicom-object = "=0.10.0"
duckdb = { version = "=1.20000.0", default-features = false }
rayon = "=1.12.0"
serde = { version = "=1.0.229", features = ["derive"] }
serde_json = "=1.0.154"
sysinfo = "=0.39.6"
tempfile = "=3.27.0"
tqdm = "=0.8.1"
walkdir = "=2.5.0"
