[package]
name = "summarizer_api"
version = "0.1.0"
edition = "2021"
publish = false

[dependencies]
uuid = { version = "1", features = ["v4"] }
serde = { version = "1", features = ["derive"] }
actix-web = "4"
actix-multipart = "*"
actix-web-httpauth = "*"
futures = "0.3"
chrono = { version = "0.4", features = ["serde"] }
dotenv = "0.15"
sqlx = { version = "*", default-features = false, features = ["runtime-tokio", "postgres", "chrono", "macros", "derive"] }
minio-rsc = "*"
pdf-extract = "*"
docx-rust = "*"
utoipa = { version = "*", features = ["actix_extras"] }
utoipa-swagger-ui = { version = "*", features = ["actix-web"] }
