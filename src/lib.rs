//! A subtle cryptography engine: algorithm normalization, AES keys, AES-CBC and
//! AES-CTR ciphers, SHA digests and PBKDF2 derivation, with verified contracts.
pub mod algorithm;
pub mod cipher;
pub mod digest;
pub mod error;
pub mod fontfaceset;
pub mod key;
pub mod lifecycle;
pub mod primitives;
pub mod subtle;
pub mod task;
