[package]
name = "car_rental"
version = "0.1.0"
edition = "2021"
publish = false

[dependencies]
chrono = { version = "=0.4.45", features = ["serde"] }
serde = { version = "=1.0.229", features = ["derive"] }
disintegrate = { version = "=4.0.0", features = ["macros", "serde-json"] }
disintegrate-postgres = { version = "=4.0.1", features = ["listener"] }
sqlx = { version = "=0.8.6", features = ["postgres", "runtime-tokio", "chrono"] }
tokio = { version = "=1.53.2", features = ["full"] }
anyhow = "=1.0.104"
async-trait = "=0.1.92"
thiserror = "=2.0.21"
