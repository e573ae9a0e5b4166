[package]
name = "cryptobox"
version = "0.1.0"
edition = "2021"
publish = false

[dependencies]
aes = "0.8"
aes-gcm = "0.10"
cbc = { version = "0.1", features = ["alloc"] }
base64ct = "1.6"
elliptic-curve = { version = "0.13", features = ["ecdh", "pkcs8", "sec1", "arithmetic", "alloc"] }
p256 = { version = "0.13", features = ["ecdh"] }
p384 = { version = "0.13", features = ["ecdh"] }
p521 = { version = "0.13", features = ["ecdh"] }
k256 = { version = "0.13", features = ["ecdh"] }
sm2 = "0.13"
pkcs8 = { version = "0.10", features = ["alloc"] }
pkcs1 = { version = "0.7", features = ["alloc"] }
sec1 = { version = "0.7", features = ["alloc", "der"] }
spki = { version = "0.7", features = ["alloc"] }
rsa = "0.9"
ed25519-dalek = { version = "2", features = ["pkcs8", "rand_core"] }
x25519-dalek = { version = "2", features = ["static_secrets"] }
rand = "0.8"
hkdf = "0.12"
concat-kdf = "0.1"
pbkdf2 = "0.12"
scrypt = "0.11"
sha1 = "0.10"
sha2 = "0.10"
sha3 = "0.10"
num-bigint = "0.4"
serde = { version = "1", features = ["derive"] }

[dev-dependencies]
pem-rfc7468 = { version = "0.7", features = ["alloc"] }
