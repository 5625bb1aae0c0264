[package]
name = "book_bot"
version = "0.1.0"
edition = "2021"
publish = false

[dependencies]
anyhow = "=1.0.104"
dotenv = "=0.15.0"
dptree = "=0.3.0"
epub = "=2.0.0"
futures = "=0.3.34"
log = "=0.4.35"
pretty_env_logger = "=0.5.0"
sqlx = { version = "=0.8.6", default-features = false, features = ["postgres", "runtime-tokio"] }
# teloxide-core accepts any takecell 0.1; takecell 0.1.2 requires rustc 1.96
takecell = "=0.1.1"
teloxide = { version = "=0.13.0", default-features = false, features = ["macros", "rustls", "ctrlc_handler"] }
tokio = { version = "=1.54.1", features = ["macros", "rt-multi-thread", "fs"] }

[dev-dependencies]
zip = { version = "=0.6.6", default-features = false }
