[package]
name = "pas"
version = "0.1.0"
edition = "2021"
publish = false

[dependencies]
anyhow = "=1.0.104"
axum = "=0.7.9"
base64 = "=0.22.1"
bigdecimal = "=0.3.1"
bounded-vec-deque = "=0.1.1"
chrono = { version = "=0.4.45", features = ["serde"] }
clap = { version = "=4.6.7", features = ["derive"] }
ctrlc = "=3.5.2"
futures = "=0.3.34"
human_bytes = "=0.4.3"
image = { version = "=0.24.9", default-features = false, features = ["png"] }
log = "=0.4.35"
once_cell = "=1.21.4"
plotters = { version = "=0.3.7", default-features = false, features = ["bitmap_backend", "bitmap_encoder", "all_series", "all_elements", "full_palette", "chrono", "ab_glyph"] }
serde = { version = "=1.0.229", features = ["derive"] }
serde_json = "=1.0.154"
sqlx = { version = "=0.7.4", default-features = false, features = ["runtime-tokio", "postgres", "chrono", "bigdecimal", "macros"] }
tokio = { version = "=1.54.1", features = ["full"] }
