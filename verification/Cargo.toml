[package]
name = "economist_bot"
version = "0.1.0"
edition = "2021"
publish = false

[dependencies]
anyhow = "1"
async-trait = "0.1"
chrono = "=0.4.45"
futures = { version = "0.3", default-features = false, features = ["std"] }
git-version = "0.3"
plotters = { version = "0.3", default-features = false, features = ["bitmap_backend", "bitmap_encoder", "chrono", "ab_glyph", "line_series", "full_palette"] }
reqwest = { version = "0.11", default-features = false, features = ["multipart", "rustls-tls"] }
rustc_version = "0.4"
serenity = { version = "0.11", default-features = false, features = ["client", "gateway", "rustls_backend", "model"] }
shuttle-persist = "0.27"
shuttle-runtime = "0.27"
shuttle-secrets = "0.27"
shuttle-serenity = "0.27"
shuttle-shared-db = { version = "0.27", features = ["postgres-rustls"] }
sqlx = { version = "0.7", default-features = false, features = ["runtime-tokio-rustls", "postgres", "chrono", "any"] }
tokio = { version = "1", features = ["rt-multi-thread", "macros", "time", "sync"] }
tracing = "0.1"
