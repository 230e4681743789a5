[package]
name = "sgl_tls"
version = "0.1.0"
edition = "2021"
publish = false

[dependencies]
anyhow = "1"
aws-lc-rs = "=1.18.1"
jsonwebtoken = { version = "=10.4.0", default-features = false, features = ["aws_lc_rs"] }
k8s-openapi = { version = "0.27", features = ["latest"] }
kube = { version = "3.1", default-features = false, features = ["client", "rustls-tls", "ring"] }
openssl = "=0.10.82"
reqwest = { version = "=0.12.28", default-features = false, features = ["rustls-tls-manual-roots-no-provider", "http2"] }
rustls = { version = "=0.23.46", default-features = false, features = ["ring", "aws_lc_rs", "std", "tls12"] }
rustls-openssl = "=0.4.1"
rustls-pki-types = { version = "=1.15.1", features = ["std"] }
sha2 = "=0.11.1"
tracing = "0.1"
webpki-roots = "=1.0.10"

[dev-dependencies]
rcgen = { version = "=0.13.2", default-features = false, features = ["crypto", "pem", "ring"] }
