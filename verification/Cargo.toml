[package]
name = "oil_tokenization_core"
version = "0.1.0"
edition = "2021"
publish = false

[dependencies]
tiny-keccak = { version = "2.0", features = ["keccak"] }
rust_decimal = "1"
chrono = "0.4"
serde = { version = "1", features = ["derive"] }
serde_json = "1"
risc0-zkvm = { version = "*", default-features = false, features = ["std", "client"] }
risc0-zkp = "*"
sea-orm = { version = "1", default-features = false, features = ["macros", "with-chrono", "with-json", "with-rust_decimal"] }
async-trait = "0.1"
dotenv = "0.15"
