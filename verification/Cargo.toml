[package]
name = "quote_service"
version = "0.1.0"
edition = "2021"
publish = false

[dependencies]
hmac = "=0.12.1"
jwt = "=0.16.0"
sha2 = "=0.10.9"
uuid = { version = "=1.29.0", features = ["v4"] }
actix-web = "=4.18.1"
actix-web-httpauth = "=0.8.3"
actix-web-prom = "=0.6.0"
diesel = { version = "=2.3.14", features = ["postgres", "r2d2"] }
dotenv = "=0.15.0"
gethostname = "=0.4.3"
log = "=0.4.34"
r2d2 = "=0.8.10"
serde = { version = "=1.0.229", features = ["derive"] }
simple_logger = "=4.3.3"
utoipa = { version = "3", features = ["actix_extras"] }
utoipa-swagger-ui = { version = "3", features = ["actix-web"] }
validator = "=0.16.1"
