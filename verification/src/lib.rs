//! Verified core of a small end-to-end encrypted messenger: block padding,
//! AES-256 message and key encryption, Base64 transport encoding, e-mail
//! address recognition, and the decision logic of the chat client and server.

pub mod blocks;
pub mod cipher;
pub mod client;
pub mod codec;
pub mod common;
pub mod common_structs;
pub mod credentials;
pub mod decimal;
pub mod deployment;
pub mod email;
pub mod encryption;
pub mod models;
pub mod server;
