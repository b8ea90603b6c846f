[package]
name = "dbrepo"
version = "0.1.0"
edition = "2021"
publish = false

[dependencies]
sqlx = { version = "=0.9.0", default-features = false, features = ["mysql", "runtime-tokio", "bigdecimal", "derive"] }
tokio = { version = "=1.53.2", features = ["macros", "rt-multi-thread"] }
dotenv = "=0.15.0"
env_logger = "=0.11.11"
log = "=0.4.34"
thiserror = "=2.0.21"
bigdecimal = "=0.4.11"
