[package]
name = "docstore"
version = "0.1.0"
edition = "2021"
publish = false

[dependencies]
async-graphql = { version = "=7.0.19", default-features = false, features = ["uuid", "chrono", "tracing", "playground"] }
async-graphql-warp = "=7.0.19"
async-trait = "0.1"
bollard = "=0.15.0"
chrono = { version = "0.4", features = ["serde"] }
clap = { version = "=4.5.61", features = ["derive"] }
config = { version = "=0.14.1", default-features = false, features = ["toml"] }
futures = "0.3"
graphql_client = { version = "=0.14.0", features = ["reqwest"] }
http = "=0.2.12"
reqwest = { version = "=0.11.27", features = ["json", "gzip", "brotli", "deflate"] }
semver = "1"
serde = { version = "1", features = ["derive"] }
serde_json = "1"
snafu = "=0.8.9"
sqlx = { version = "=0.7.4", default-features = false, features = ["postgres", "runtime-tokio", "uuid", "chrono"] }
tokio = { version = "1", features = ["rt-multi-thread", "macros", "time"] }
tracing = "0.1"
tracing-attributes = "0.1"
tracing-subscriber = "0.3"
url = { version = "2", features = ["serde"] }
uuid = { version = "1", features = ["serde", "v4"] }
warp = { version = "=0.3.7", default-features = false }
