[package]
name = "pool_offload"
version = "0.1.0"
edition = "2021"
publish = false

[dependencies]
actix-web = "3"
chrono = { version = "0.4", features = ["serde"] }
diesel = { version = "1.4", features = ["postgres", "r2d2", "chrono"] }
diesel_migrations = "1.4"
log = "0.4"
num_cpus = "1"
once_cell = "1"
serde = { version = "1", features = ["derive"] }
