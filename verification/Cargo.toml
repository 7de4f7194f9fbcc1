[package]
name = "dges_extract"
version = "0.1.0"
edition = "2021"
publish = false

[dependencies]
anyhow = "1"
async-trait = "0.1"
clap = { version = "3", features = ["derive"] }
const_format = "0.2"
csv = "1"
diesel = { version = "2", features = ["sqlite", "returning_clauses_for_sqlite_3_35"] }
diesel_migrations = "2"
dotenv = "0.15"
ego-tree = "0.6"
futures = "0.3"
reqwest = "0.11"
reqwest-middleware = "0.2"
serde = { version = "1", features = ["derive"] }
task-local-extensions = "0.1"
thiserror = "1"
tokio = { version = "1", features = ["macros", "rt-multi-thread"] }
tracing = "0.1"
tracing-subscriber = "0.3"
voyager = "*"
