[package]
name = "noctis_dicom"
version = "0.1.0"
edition = "2021"
publish = false

[dependencies]
serde_json = "=1.0.154"
serde = { version = "=1.0.229", features = ["derive"] }
anyhow = "=1.0.104"
thiserror = "=2.0.21"
async-trait = "=0.1.92"
tracing = "=0.1.44"
tracing-subscriber = { version = "=0.3.23", features = ["env-filter"] }
tokio = { version = "=1.54.1", features = ["rt-multi-thread", "macros", "fs", "net", "io-util"] }
reqwest = { version = "=0.13.5", default-features = false }
tempfile = "=3.27.0"
dicom-object = "=0.10.0"
dicom-ul = { version = "=0.10.0", features = ["async"] }
pyo3 = "=0.30.1"

[dev-dependencies]
dicom-core = "=0.10.0"
