[package]
name = "anvil_recompress"
version = "0.1.1"
edition = "2021"
publish = false

[dependencies]
anyhow = "=1.0.104"
blake3 = "=1.8.7"
camino = "=1.2.6"
clap = { version = "=4.6.7", features = ["derive"] }
fastanvil = "=0.32.0"
flate2 = "=1.1.10"
lz4 = "=1.28.1"
relative-path = "=2.0.3"
rusqlite = { version = "=0.41.1", features = ["bundled", "serde_json", "i128_blob"] }
same-file = "=1.0.6"
serde_json = "=1.0.154"
slog = { version = "=2.8.2", features = ["nested-values"] }
thiserror = "=2.0.21"
time = { version = "=0.3.55", features = ["formatting", "parsing"] }
twox-hash = { version = "=1.6.3", default-features = false }
walkdir = "=2.5.0"
