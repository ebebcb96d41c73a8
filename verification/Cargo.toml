[package]
name = "api_util"
version = "0.1.0"
edition = "2021"
publish = false

[dependencies]
actix-session = { version = "=0.10.1", default-features = false }
actix-web = { version = "=4.18.1", default-features = false, features = ["macros"] }
chrono = "=0.4.45"
derive_more = { version = "=1.0.0", features = ["display"] }
diesel = { version = "=2.2.12", features = ["postgres_backend", "chrono"] }
diesel-async = { version = "=0.5.2", features = ["postgres", "deadpool"] }
# diesel-async 0.5.2 uses `futures_util::try_join!`, which this feature turns on.
futures-util = { version = "=0.3.34", features = ["async-await-macro"] }
log = "=0.4.35"
uuid = { version = "=1.29.0", features = ["v4"] }
