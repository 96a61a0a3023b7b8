//! Identities of an installation, derived from a seed and a credential.
//!
//! A 32-byte seed gives the primary signing key pair. The e-mail address and
//! the password of an administrator, hashed with a memory-hard function that
//! is keyed by the primary public key, give the administrator's key pair, of
//! which only the public half is kept. Both are held in a versioned record
//! whose binary fields are written as base64 text.

pub mod error;
pub mod keys;
pub mod seed;
pub mod encoding;
pub mod config;
pub mod text;
pub mod request;

pub use config::{Admin, Config};
pub use error::ConfigError;
pub use keys::{PublicKey, Seed};
